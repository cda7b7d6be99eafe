use dcerpc::builder::{command_line, Builder};

fn strings(v: &[&str]) -> Vec<String> {
    v.iter().map(|s| s.to_string()).collect()
}

#[test]
fn default_builder_arguments() {
    let args = Builder::default().arguments();
    assert_eq!(
        args,
        strings(&[
            "", "-header", "", "-no_mepv", "-cc_cmd", "", "-cc_opt",
            "-c -D_GNU_SOURCE -D_REENTRANT -D_POSIX_C_SOURCE=3", "-cpp_cmd", "", "-cpp_opt",
            "-E -x c-header", "-client", "none", "-server", "none",
        ])
    );
}

#[test]
fn plain_header_build() {
    let args = Builder::default()
        .include_directory("src/include")
        .idl("src/include/dce/rpc.idl")
        .header("out/rpc.h")
        .cepv(true)
        .mepv(false)
        .c_compiler("/usr/bin/cc")
        .arguments();
    assert_eq!(
        args,
        strings(&[
            "src/include/dce/rpc.idl", "-header", "out/rpc.h", "-cepv", "-no_mepv", "-cc_cmd",
            "/usr/bin/cc", "-cc_opt", "-c -D_GNU_SOURCE -D_REENTRANT -D_POSIX_C_SOURCE=3",
            "-cpp_cmd", "/usr/bin/cc", "-cpp_opt", "-E -x c-header", "-I", "src/include",
            "-client", "none", "-server", "none",
        ])
    );
}

#[test]
fn stubs_keep_sources_and_no_preprocessing() {
    let args = Builder::default()
        .idl("mgmt.idl")
        .header("mgmt.h")
        .cstub("mgmt_cstub.c")
        .sstub("mgmt_sstub.c")
        .mepv(true)
        .preprocess(false)
        .c_compiler("cc")
        .include_directory("a")
        .include_directory("b")
        .arguments();
    assert_eq!(
        args,
        strings(&[
            "mgmt.idl", "-header", "mgmt.h", "-mepv", "-cc_cmd", "cc", "-cc_opt",
            "-c -D_GNU_SOURCE -D_REENTRANT -D_POSIX_C_SOURCE=3", "-cpp_cmd", "cc", "-cpp_opt",
            "-E -x c-header", "-I", "a", "-I", "b", "-keep", "c_source", "-cstub", "mgmt_cstub.c",
            "-sstub", "mgmt_sstub.c", "-no_cpp",
        ])
    );
}

#[test]
fn client_stub_only() {
    let args = Builder::default().idl("ep.idl").header("ep.h").cstub("ep_cstub.c").arguments();
    let n = args.len();
    assert_eq!(&args[n - 6..], &strings(&["-keep", "c_source", "-cstub", "ep_cstub.c", "-server", "none"])[..]);
}

#[test]
fn later_setting_replaces_earlier() {
    let args = Builder::default().idl("a.idl").idl("b.idl").cepv(true).cepv(false).arguments();
    assert_eq!(args[0], "b.idl");
    assert_eq!(args[3], "-no_mepv");
}

#[test]
fn command_line_starts_with_program_name() {
    let argv = command_line(strings(&["x.idl", "-header", "x.h"]));
    assert_eq!(argv, strings(&["dceidl", "x.idl", "-header", "x.h"]));
    assert_eq!(command_line(Vec::new()), strings(&["dceidl"]));
}
