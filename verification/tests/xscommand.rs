use xscommand::CommandLine;
use xscommand::DefaultErr;
use xscommand::RunEvent;
use xscommand::XSCommandErr;
use xscommand::excute_outcome;

#[test]
fn get_args_returns_what_set_args_set() {
    let mut cmd = CommandLine::new("git");
    cmd.set_args(vec!["status", "--short", "-b"]);
    assert_eq!(cmd.get_args(), vec!["status", "--short", "-b"]);
}

#[test]
fn get_args_reflects_latest_set_args() {
    let mut cmd = CommandLine::new("make");
    cmd.set_args(vec!["clean"]);
    cmd.set_args(vec!["-j", "8", "all"]);
    assert_eq!(cmd.get_args(), vec!["-j", "8", "all"]);
}

#[test]
fn new_command_has_no_args_and_no_workdir() {
    let cmd = CommandLine::new("numactl");
    assert_eq!(cmd.get_args(), Vec::<&str>::new());
    assert_eq!(cmd.get_workdir(), None);
    assert_eq!(cmd.get_path(), "numactl");
}

#[test]
fn set_workdir_none_always_succeeds() {
    let mut cmd = CommandLine::new("git");
    assert_eq!(cmd.set_workdir(None, false), Ok(()));
    assert_eq!(cmd.get_workdir(), None);
    assert_eq!(cmd.set_workdir(None, true), Ok(()));
    assert_eq!(cmd.get_workdir(), None);
}

#[test]
fn set_workdir_invalid_path_fails_with_code_1() {
    let mut cmd = CommandLine::new("git");
    cmd.set_args(vec!["log"]);
    let r = cmd.set_workdir(Some("/no/such/directory"), false);
    let err = r.unwrap_err();
    assert_eq!(err.err_code(), 1);
    assert!(matches!(err, DefaultErr::SetWorkDirErr));
    // The failure left the command exactly as it was.
    assert_eq!(cmd.get_workdir(), None);
    assert_eq!(cmd.get_args(), vec!["log"]);
    assert_eq!(cmd.get_path(), "git");
}

#[test]
fn set_workdir_validated_path_is_recorded() {
    let mut cmd = CommandLine::new("git");
    assert_eq!(cmd.set_workdir(Some("/tmp"), true), Ok(()));
    assert_eq!(cmd.get_workdir(), Some("/tmp"));
}

#[test]
fn stdout_target_denied_is_code_2() {
    let r = excute_outcome(RunEvent::StdoutDenied);
    assert_eq!(r.unwrap_err().err_code(), 2);
}

#[test]
fn stderr_target_denied_is_code_3() {
    let r = excute_outcome(RunEvent::StderrDenied);
    assert_eq!(r.unwrap_err().err_code(), 3);
}

#[test]
fn no_exit_code_is_code_4() {
    let r = excute_outcome(RunEvent::NoExitCode);
    assert_eq!(r.unwrap_err().err_code(), 4);
}

#[test]
fn successful_run_returns_ok_zero() {
    assert_eq!(excute_outcome(RunEvent::Exited(0)), Ok(0));
}

#[test]
fn nonzero_exit_is_returned_as_is_consistently() {
    // The documented policy: a reported exit code comes back as `Ok`,
    // non-zero ones included, on every run.
    assert_eq!(excute_outcome(RunEvent::Exited(7)), Ok(7));
    assert_eq!(excute_outcome(RunEvent::Exited(7)), Ok(7));
}

#[test]
fn to_string_splits_back_to_path_then_args() {
    let mut cmd = CommandLine::new("emu");
    cmd.set_args(vec!["-i", "image.bin", "--diff"]);
    let line = cmd.to_string();
    assert_eq!(line, "emu -i image.bin --diff");
    let tokens: Vec<&str> = line.split_whitespace().collect();
    assert_eq!(tokens, vec!["emu", "-i", "image.bin", "--diff"]);
}

#[test]
fn to_string_without_args_is_the_path() {
    let cmd = CommandLine::new("busybox");
    assert_eq!(cmd.to_string(), "busybox");
}

#[test]
fn to_string_leaves_workdir_out() {
    let mut cmd = CommandLine::new("make");
    cmd.set_args(vec!["install"]);
    assert_eq!(cmd.set_workdir(Some("/tmp"), true), Ok(()));
    assert_eq!(cmd.to_string(), "make install");
}

#[test]
fn default_err_descriptions_are_nonempty() {
    assert!(!DefaultErr::SetWorkDirErr.as_str().is_empty());
    assert!(!DefaultErr::ExcuteErr(2).as_str().is_empty());
}

#[test]
fn default_err_codes_are_stable() {
    assert_eq!(DefaultErr::SetWorkDirErr.err_code(), 1);
    assert_eq!(DefaultErr::ExcuteErr(2).err_code(), 2);
    assert_eq!(DefaultErr::ExcuteErr(3).err_code(), 3);
    assert_eq!(DefaultErr::ExcuteErr(4).err_code(), 4);
    assert_eq!(DefaultErr::ExcuteErr(5).err_code(), 5);
}
