use rusti::toolchain::{
    compiler_binary, parse_sysroot, probe_arguments, read_probe, LocatorStep, ProbeOutcome,
    ToolchainError, ToolchainLocator,
};

#[test]
fn compiler_binary_by_system() {
    assert_eq!(compiler_binary(false), "rustc");
    assert_eq!(compiler_binary(true), "rustc.exe");
}

#[test]
fn probe_asks_for_the_sysroot() {
    assert_eq!(probe_arguments(), vec!["--print", "sysroot"]);
}

#[test]
fn parse_sysroot_trims_the_line_feed() {
    assert_eq!(
        parse_sysroot(b"/home/user/.rustup/toolchains/stable\n".to_vec()),
        Ok(String::from("/home/user/.rustup/toolchains/stable"))
    );
}

#[test]
fn parse_sysroot_trims_carriage_return_and_line_feed() {
    assert_eq!(
        parse_sysroot(b"C:\\Users\\me\\.rustup\r\n".to_vec()),
        Ok(String::from("C:\\Users\\me\\.rustup"))
    );
}

#[test]
fn parse_sysroot_without_line_ending() {
    assert_eq!(parse_sysroot(b"/usr".to_vec()), Ok(String::from("/usr")));
}

#[test]
fn parse_sysroot_of_empty_output_is_empty() {
    assert_eq!(parse_sysroot(Vec::new()), Ok(String::new()));
    assert_eq!(parse_sysroot(b"\n".to_vec()), Ok(String::new()));
}

#[test]
fn parse_sysroot_keeps_inner_and_leading_white_space() {
    assert_eq!(parse_sysroot(b" /opt/my rust \n".to_vec()), Ok(String::from(" /opt/my rust ")));
}

#[test]
fn parse_sysroot_decodes_utf8() {
    assert_eq!(
        parse_sysroot("/home/zoé/rust\n".as_bytes().to_vec()),
        Ok(String::from("/home/zoé/rust"))
    );
}

#[test]
fn parse_sysroot_rejects_invalid_utf8() {
    assert_eq!(
        parse_sysroot(vec![b'/', b'u', 0xff, b'\n']),
        Err(ToolchainError::ToolchainOutputInvalid)
    );
}

#[test]
fn parse_sysroot_rejects_a_truncated_sequence() {
    assert_eq!(parse_sysroot(vec![b'/', 0xc3]), Err(ToolchainError::ToolchainOutputInvalid));
}

#[test]
fn parse_sysroot_rejects_an_overlong_encoding() {
    assert_eq!(parse_sysroot(vec![0xc0, 0xaf]), Err(ToolchainError::ToolchainOutputInvalid));
}

#[test]
fn parse_sysroot_rejects_a_surrogate() {
    assert_eq!(
        parse_sysroot(vec![0xed, 0xa0, 0x80]),
        Err(ToolchainError::ToolchainOutputInvalid)
    );
}

#[test]
fn read_probe_of_a_failed_launch() {
    assert_eq!(read_probe(ProbeOutcome::LaunchFailed), Err(ToolchainError::ToolchainNotFound));
}

#[test]
fn read_probe_of_output() {
    assert_eq!(
        read_probe(ProbeOutcome::Output(b"/usr/local\n".to_vec())),
        Ok(String::from("/usr/local"))
    );
    assert_eq!(
        read_probe(ProbeOutcome::Output(vec![0x80])),
        Err(ToolchainError::ToolchainOutputInvalid)
    );
}

#[test]
fn new_locator_plans_a_probe() {
    let locator = ToolchainLocator::new();
    assert_eq!(
        locator.plan(false),
        LocatorStep::Probe {
            program: String::from("rustc"),
            arguments: vec![String::from("--print"), String::from("sysroot")],
        }
    );
    assert_eq!(
        locator.plan(true),
        LocatorStep::Probe {
            program: String::from("rustc.exe"),
            arguments: vec![String::from("--print"), String::from("sysroot")],
        }
    );
}

#[test]
fn resolve_is_idempotent() {
    let mut locator = ToolchainLocator::new();
    let first = locator.resolve(ProbeOutcome::Output(b"/usr/local\n".to_vec()));
    assert_eq!(first, Ok(String::from("/usr/local")));
    assert_eq!(locator.plan(false), LocatorStep::Resolved(String::from("/usr/local")));
    let second = locator.resolve(ProbeOutcome::Output(b"/somewhere/else\n".to_vec()));
    assert_eq!(second, first);
    let third = locator.resolve(ProbeOutcome::LaunchFailed);
    assert_eq!(third, first);
    let fourth = locator.resolve(ProbeOutcome::Output(vec![0xff]));
    assert_eq!(fourth, first);
    assert_eq!(locator.plan(true), LocatorStep::Resolved(String::from("/usr/local")));
}

#[test]
fn failed_resolve_caches_nothing() {
    let mut locator = ToolchainLocator::new();
    assert_eq!(
        locator.resolve(ProbeOutcome::LaunchFailed),
        Err(ToolchainError::ToolchainNotFound)
    );
    assert!(matches!(locator.plan(false), LocatorStep::Probe { .. }));
    assert_eq!(
        locator.resolve(ProbeOutcome::Output(vec![0xfe, 0xfe])),
        Err(ToolchainError::ToolchainOutputInvalid)
    );
    assert!(matches!(locator.plan(false), LocatorStep::Probe { .. }));
    assert_eq!(
        locator.resolve(ProbeOutcome::Output(b"/late\n".to_vec())),
        Ok(String::from("/late"))
    );
    assert_eq!(locator.plan(false), LocatorStep::Resolved(String::from("/late")));
}
