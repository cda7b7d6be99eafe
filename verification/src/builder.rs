use vstd::prelude::*;

verus! {

/// The settings of one run of the DCE IDL compiler, gathered by a chain of setters.
pub struct Builder {
    includes: Vec<String>,
    c_compiler: String,
    idl: String,
    header: String,
    cepv: bool,
    mepv: bool,
    cstub: Option<String>,
    sstub: Option<String>,
    preprocess: bool,
}

/// What a `Builder` holds, as mathematical values.
pub struct BuilderModel {
    pub includes: Seq<Seq<char>>,
    pub c_compiler: Seq<char>,
    pub idl: Seq<char>,
    pub header: Seq<char>,
    pub cepv: bool,
    pub mepv: bool,
    pub cstub: Option<Seq<char>>,
    pub sstub: Option<Seq<char>>,
    pub preprocess: bool,
}

/// An optional string as an optional sequence of characters.
pub open spec fn option_view(o: Option<String>) -> Option<Seq<char>> {
    match o {
        Some(s) => Some(s@),
        None => None,
    }
}

impl View for Builder {
    type V = BuilderModel;

    closed spec fn view(&self) -> BuilderModel {
        BuilderModel {
            includes: self.includes.deep_view(),
            c_compiler: self.c_compiler@,
            idl: self.idl@,
            header: self.header@,
            cepv: self.cepv,
            mepv: self.mepv,
            cstub: option_view(self.cstub),
            sstub: option_view(self.sstub),
            preprocess: self.preprocess,
        }
    }
}

/// A fresh builder: no include directories, empty paths, no stubs, preprocessing on.
pub open spec fn initial_model() -> BuilderModel {
    BuilderModel {
        includes: Seq::empty(),
        c_compiler: Seq::empty(),
        idl: Seq::empty(),
        header: Seq::empty(),
        cepv: false,
        mepv: false,
        cstub: None,
        sstub: None,
        preprocess: true,
    }
}

impl Default for Builder {
    fn default() -> (b: Self)
        ensures
            b@ == initial_model(),
    {
        let b = Builder {
            includes: Vec::new(),
            c_compiler: String::new(),
            idl: String::new(),
            header: String::new(),
            cepv: false,
            mepv: false,
            cstub: None,
            sstub: None,
            preprocess: true,
        };
        assert(b.includes.deep_view() =~= Seq::<Seq<char>>::empty());
        b
    }
}

/// `-I` followed by each directory, in the order they were added.
pub open spec fn directory_flags(dirs: Seq<Seq<char>>) -> Seq<Seq<char>>
    decreases dirs.len(),
{
    if dirs.len() == 0 {
        Seq::empty()
    } else {
        directory_flags(dirs.drop_last()) + seq!["-I"@, dirs.last()]
    }
}

/// The options that the C compiler gets when the IDL compiler compiles generated stubs.
pub open spec fn cc_options() -> Seq<char> {
    "-c -D_GNU_SOURCE -D_REENTRANT -D_POSIX_C_SOURCE=3"@
}

/// The options that the C compiler gets when it preprocesses the IDL file.
pub open spec fn cpp_options() -> Seq<char> {
    "-E -x c-header"@
}

/// The command line (without the program name) that the IDL compiler is run with.
pub open spec fn compiler_arguments(m: BuilderModel) -> Seq<Seq<char>> {
    seq![m.idl, "-header"@, m.header]
    + (if m.cepv { seq!["-cepv"@] } else { Seq::empty() })
    + seq![
        if m.mepv { "-mepv"@ } else { "-no_mepv"@ },
        "-cc_cmd"@, m.c_compiler, "-cc_opt"@, cc_options(),
        "-cpp_cmd"@, m.c_compiler, "-cpp_opt"@, cpp_options(),
    ]
    + directory_flags(m.includes)
    + (if m.cstub is Some || m.sstub is Some { seq!["-keep"@, "c_source"@] } else { Seq::empty() })
    + (match m.cstub {
        Some(f) => seq!["-cstub"@, f],
        None => seq!["-client"@, "none"@],
    })
    + (match m.sstub {
        Some(f) => seq!["-sstub"@, f],
        None => seq!["-server"@, "none"@],
    })
    + (if m.preprocess { Seq::empty() } else { seq!["-no_cpp"@] })
}

fn push_arg(args: &mut Vec<String>, arg: String)
    ensures
        final(args).deep_view() == old(args).deep_view().push(arg@),
{
    let ghost before = args.deep_view();
    args.push(arg);
    assert(args.deep_view() =~= before.push(arg@));
}

impl Builder {
    /// Sets the C compiler that the IDL compiler runs, both to compile and to preprocess.
    pub fn c_compiler(self, c_compiler: &str) -> (r: Self)
        ensures
            r@ == (BuilderModel { c_compiler: c_compiler@, ..self@ }),
    {
        let mut b = self;
        b.c_compiler = c_compiler.to_owned();
        b
    }

    /// Adds a directory to the search path for imported files.
    pub fn include_directory(self, directory: &str) -> (r: Self)
        ensures
            r@ == (BuilderModel { includes: self@.includes.push(directory@), ..self@ }),
    {
        let mut b = self;
        let ghost old_includes = b.includes.deep_view();
        b.includes.push(directory.to_owned());
        assert(b.includes.deep_view() =~= old_includes.push(directory@));
        b
    }

    /// Sets the IDL file to compile.
    pub fn idl(self, idl: &str) -> (r: Self)
        ensures
            r@ == (BuilderModel { idl: idl@, ..self@ }),
    {
        let mut b = self;
        b.idl = idl.to_owned();
        b
    }

    /// Sets the header file to generate.
    pub fn header(self, header: &str) -> (r: Self)
        ensures
            r@ == (BuilderModel { header: header@, ..self@ }),
    {
        let mut b = self;
        b.header = header.to_owned();
        b
    }

    /// Enables or disables the client entry point vector.
    pub fn cepv(self, enabled: bool) -> (r: Self)
        ensures
            r@ == (BuilderModel { cepv: enabled, ..self@ }),
    {
        let mut b = self;
        b.cepv = enabled;
        b
    }

    /// Enables or disables the manager entry point vector.
    pub fn mepv(self, enabled: bool) -> (r: Self)
        ensures
            r@ == (BuilderModel { mepv: enabled, ..self@ }),
    {
        let mut b = self;
        b.mepv = enabled;
        b
    }

    /// Sets the client stub file to generate.
    pub fn cstub(self, file: &str) -> (r: Self)
        ensures
            r@ == (BuilderModel { cstub: Some(file@), ..self@ }),
    {
        let mut b = self;
        b.cstub = Some(file.to_owned());
        b
    }

    /// Sets the server stub file to generate.
    pub fn sstub(self, file: &str) -> (r: Self)
        ensures
            r@ == (BuilderModel { sstub: Some(file@), ..self@ }),
    {
        let mut b = self;
        b.sstub = Some(file.to_owned());
        b
    }

    /// Enables or disables running the C preprocessor over the IDL file.
    pub fn preprocess(self, enabled: bool) -> (r: Self)
        ensures
            r@ == (BuilderModel { preprocess: enabled, ..self@ }),
    {
        let mut b = self;
        b.preprocess = enabled;
        b
    }
}

impl Builder {
    /// The command line, without the program name, that this builder runs the IDL compiler with.
    pub fn arguments(&self) -> (args: Vec<String>)
        ensures
            args.deep_view() == compiler_arguments(self@),
    {
        let m = Ghost(self@);
        let mut args: Vec<String> = Vec::new();
        push_arg(&mut args, self.idl.clone());
        push_arg(&mut args, "-header".to_owned());
        push_arg(&mut args, self.header.clone());
        if self.cepv {
            push_arg(&mut args, "-cepv".to_owned());
        }
        push_arg(&mut args, (if self.mepv { "-mepv" } else { "-no_mepv" }).to_owned());
        push_arg(&mut args, "-cc_cmd".to_owned());
        push_arg(&mut args, self.c_compiler.clone());
        push_arg(&mut args, "-cc_opt".to_owned());
        push_arg(&mut args, "-c -D_GNU_SOURCE -D_REENTRANT -D_POSIX_C_SOURCE=3".to_owned());
        push_arg(&mut args, "-cpp_cmd".to_owned());
        push_arg(&mut args, self.c_compiler.clone());
        push_arg(&mut args, "-cpp_opt".to_owned());
        push_arg(&mut args, "-E -x c-header".to_owned());
        let ghost head = args.deep_view();
        assert(head =~= seq![m@.idl, "-header"@, m@.header]
            + (if m@.cepv { seq!["-cepv"@] } else { Seq::empty() })
            + seq![
                if m@.mepv { "-mepv"@ } else { "-no_mepv"@ },
                "-cc_cmd"@, m@.c_compiler, "-cc_opt"@, cc_options(),
                "-cpp_cmd"@, m@.c_compiler, "-cpp_opt"@, cpp_options(),
            ]);
        let n = self.includes.len();
        let mut i: usize = 0;
        while i < n
            invariant
                n == self.includes.len(),
                i <= n,
                m@ == self@,
                args.deep_view() == head + directory_flags(m@.includes.take(i as int)),
            decreases n - i,
        {
            push_arg(&mut args, "-I".to_owned());
            push_arg(&mut args, self.includes[i].clone());
            assert(m@.includes.take(i + 1).drop_last() =~= m@.includes.take(i as int));
            assert(m@.includes.take(i + 1).last() == self.includes@[i as int]@);
            i = i + 1;
        }
        assert(m@.includes.take(n as int) =~= m@.includes);
        let ghost mid = args.deep_view();
        if self.cstub.is_some() || self.sstub.is_some() {
            push_arg(&mut args, "-keep".to_owned());
            push_arg(&mut args, "c_source".to_owned());
        }
        match &self.cstub {
            Some(cstub) => {
                push_arg(&mut args, "-cstub".to_owned());
                push_arg(&mut args, cstub.clone());
            },
            None => {
                push_arg(&mut args, "-client".to_owned());
                push_arg(&mut args, "none".to_owned());
            },
        }
        match &self.sstub {
            Some(sstub) => {
                push_arg(&mut args, "-sstub".to_owned());
                push_arg(&mut args, sstub.clone());
            },
            None => {
                push_arg(&mut args, "-server".to_owned());
                push_arg(&mut args, "none".to_owned());
            },
        }
        if !self.preprocess {
            push_arg(&mut args, "-no_cpp".to_owned());
        }
        assert(args.deep_view() =~= compiler_arguments(m@));
        args
    }
}

/// The program name that the IDL compiler is run under.
pub open spec fn program_name() -> Seq<char> {
    "dceidl"@
}

/// The full command line of the IDL compiler: its program name, then `args`.
pub fn command_line(args: Vec<String>) -> (argv: Vec<String>)
    ensures
        argv.deep_view() == seq![program_name()] + args.deep_view(),
{
    let mut argv = args;
    let ghost before = argv.deep_view();
    argv.insert(0, "dceidl".to_owned());
    assert(argv.deep_view() =~= seq![program_name()] + before);
    argv
}

/// The flags for a list of directories hold two entries per directory.
pub proof fn lemma_directory_flags_len(dirs: Seq<Seq<char>>)
    ensures
        directory_flags(dirs).len() == 2 * dirs.len(),
    decreases dirs.len(),
{
    if dirs.len() > 0 {
        lemma_directory_flags_len(dirs.drop_last());
    }
}

/// The directory at position `j` is passed at `2 * j + 1`, right after `-I`.
pub proof fn lemma_directory_flag_at(dirs: Seq<Seq<char>>, j: int)
    requires
        0 <= j < dirs.len(),
    ensures
        directory_flags(dirs)[2 * j] == "-I"@,
        directory_flags(dirs)[2 * j + 1] == dirs[j],
    decreases dirs.len(),
{
    let init = dirs.drop_last();
    lemma_directory_flags_len(init);
    if j < dirs.len() - 1 {
        lemma_directory_flag_at(init, j);
        assert(init[j] == dirs[j]);
    }
}

/// The head of the command line: the IDL file and the header, the entry point vector
/// switches, and one C compiler named both for compiling and for preprocessing; and the
/// length of the whole command line.
pub proof fn law_arguments_head(m: BuilderModel)
    ensures
        ({
            let a = compiler_arguments(m);
            let o: int = if m.cepv { 1 } else { 0 };
            let k: int = if m.cstub is Some || m.sstub is Some { 2 } else { 0 };
            let t: int = if m.preprocess { 0 } else { 1 };
            &&& a.len() == 16 + o + 2 * m.includes.len() + k + t
            &&& a[0] == m.idl
            &&& a[1] == "-header"@
            &&& a[2] == m.header
            &&& m.cepv ==> a[3] == "-cepv"@
            &&& a[3 + o] == (if m.mepv { "-mepv"@ } else { "-no_mepv"@ })
            &&& a[4 + o] == "-cc_cmd"@
            &&& a[5 + o] == m.c_compiler
            &&& a[6 + o] == "-cc_opt"@
            &&& a[7 + o] == cc_options()
            &&& a[8 + o] == "-cpp_cmd"@
            &&& a[9 + o] == m.c_compiler
            &&& a[10 + o] == "-cpp_opt"@
            &&& a[11 + o] == cpp_options()
        }),
{
    lemma_directory_flags_len(m.includes);
}

/// Every directory added is passed after `-I`, in the order in which they were added.
pub proof fn law_arguments_directories(m: BuilderModel, j: int)
    requires
        0 <= j < m.includes.len(),
    ensures
        ({
            let a = compiler_arguments(m);
            let o: int = if m.cepv { 1 } else { 0 };
            &&& a[12 + o + 2 * j] == "-I"@
            &&& a[13 + o + 2 * j] == m.includes[j]
        }),
{
    lemma_directory_flags_len(m.includes);
    lemma_directory_flag_at(m.includes, j);
    let a = compiler_arguments(m);
    let o: int = if m.cepv { 1 } else { 0 };
    let head = seq![m.idl, "-header"@, m.header] + (if m.cepv { seq!["-cepv"@] } else { Seq::empty() })
        + seq![
        if m.mepv { "-mepv"@ } else { "-no_mepv"@ },
        "-cc_cmd"@, m.c_compiler, "-cc_opt"@, cc_options(),
        "-cpp_cmd"@, m.c_compiler, "-cpp_opt"@, cpp_options(),
    ];
    assert(head.len() == 12 + o);
    let df = directory_flags(m.includes);
    let tail = (if m.cstub is Some || m.sstub is Some { seq!["-keep"@, "c_source"@] } else { Seq::empty() })
        + (match m.cstub {
            Some(f) => seq!["-cstub"@, f],
            None => seq!["-client"@, "none"@],
        })
        + (match m.sstub {
            Some(f) => seq!["-sstub"@, f],
            None => seq!["-server"@, "none"@],
        })
        + (if m.preprocess { Seq::empty() } else { seq!["-no_cpp"@] });
    assert(a =~= head + df + tail);
    assert(a[12 + o + 2 * j] == directory_flags(m.includes)[2 * j]);
    assert(a[13 + o + 2 * j] == directory_flags(m.includes)[2 * j + 1]);
}

/// The tail of the command line: the generated C sources are kept exactly when a stub is
/// asked for; each stub that is asked for is named, and a side with no stub is told `none`;
/// and `-no_cpp` closes the command line exactly when preprocessing is off.
pub proof fn law_arguments_stubs(m: BuilderModel)
    ensures
        ({
            let a = compiler_arguments(m);
            let o: int = if m.cepv { 1 } else { 0 };
            let p = 12 + o + 2 * m.includes.len();
            let q: int = if m.cstub is Some || m.sstub is Some { p + 2 } else { p };
            &&& (m.cstub is Some || m.sstub is Some) ==> a[p] == "-keep"@ && a[p + 1] == "c_source"@
            &&& match m.cstub {
                Some(f) => a[q] == "-cstub"@ && a[q + 1] == f,
                None => a[q] == "-client"@ && a[q + 1] == "none"@,
            }
            &&& match m.sstub {
                Some(f) => a[q + 2] == "-sstub"@ && a[q + 3] == f,
                None => a[q + 2] == "-server"@ && a[q + 3] == "none"@,
            }
            &&& !m.preprocess ==> a.len() == q + 5 && a[q + 4] == "-no_cpp"@
            &&& m.preprocess ==> a.len() == q + 4
        }),
{
    lemma_directory_flags_len(m.includes);
}

} // verus!
