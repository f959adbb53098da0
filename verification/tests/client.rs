use rpg::cli::{browser_command, parse_subcmd, OsFamily, Subcmd};
use rpg::options::{validate_opts, Channel, Edition, Mode, OptionError, Options};
use rpg::percent::percent_decode;
use rpg::run::{run_start, run_with_file, run_with_response, Run, RunNext, RunOutcome, RunReq, RunRes, RunStart};
use rpg::share::{
    share_start, share_with_file, share_with_response, GistRes, Share, ShareNext, ShareOutcome,
    ShareStart,
};

fn valid_run(open: bool) -> Run {
    Run::new(None, None, None, open)
}

#[test]
fn invalid_channel_stops_run_before_any_io() {
    let run = Run::new(Some("stale".to_string()), None, None, false);
    match run_start(&run) {
        RunStart::Reject(e) => {
            assert_eq!(e, OptionError::InvalidChannel);
            assert_eq!(e.message(), "Error: `version` must be one of `stable`, `beta`, or `nightly`");
        }
        RunStart::ReadFile(_) => panic!("an invalid channel must be rejected before the file is read"),
    }
}

#[test]
fn invalid_mode_stops_run_before_any_io() {
    let run = Run::new(None, Some("fast".to_string()), None, false);
    match run_start(&run) {
        RunStart::Reject(e) => {
            assert_eq!(e, OptionError::InvalidMode);
            assert_eq!(e.message(), "Error: `mode` must be one of `debug` or `release`");
        }
        RunStart::ReadFile(_) => panic!("an invalid mode must be rejected before the file is read"),
    }
}

#[test]
fn invalid_edition_stops_run_before_any_io() {
    let run = Run::new(None, None, Some("2021".to_string()), false);
    match run_start(&run) {
        RunStart::Reject(e) => {
            assert_eq!(e, OptionError::InvalidEdition);
            assert_eq!(e.message(), "Error: `edition` must be one of `2015` or `2018`");
        }
        RunStart::ReadFile(_) => panic!("an invalid edition must be rejected before the file is read"),
    }
}

#[test]
fn invalid_options_stop_share_before_any_io() {
    let bad_channel = Share::new(Some("daily".to_string()), None, None);
    assert_eq!(share_start(&bad_channel), ShareStart::Reject(OptionError::InvalidChannel));
    let bad_mode = Share::new(None, Some("optimized".to_string()), None);
    assert_eq!(share_start(&bad_mode), ShareStart::Reject(OptionError::InvalidMode));
    let bad_edition = Share::new(None, None, Some("2024".to_string()));
    assert_eq!(share_start(&bad_edition), ShareStart::Reject(OptionError::InvalidEdition));
}

#[test]
fn channel_is_checked_first() {
    let r = validate_opts("beta-2", "fast", "2021");
    assert_eq!(r, Err(OptionError::InvalidChannel));
    let r = validate_opts("beta", "fast", "2021");
    assert_eq!(r, Err(OptionError::InvalidMode));
    let r = validate_opts("beta", "release", "2021");
    assert_eq!(r, Err(OptionError::InvalidEdition));
}

#[test]
fn all_valid_option_values_parse() {
    for (s, c) in [("stable", Channel::Stable), ("beta", Channel::Beta), ("nightly", Channel::Nightly)] {
        assert_eq!(Channel::parse(s), Some(c));
        assert_eq!(c.as_str(), s);
    }
    for (s, m) in [("debug", Mode::Debug), ("release", Mode::Release)] {
        assert_eq!(Mode::parse(s), Some(m));
        assert_eq!(m.as_str(), s);
    }
    for (s, e) in [("2015", Edition::E2015), ("2018", Edition::E2018)] {
        assert_eq!(Edition::parse(s), Some(e));
        assert_eq!(e.as_str(), s);
    }
    assert_eq!(Channel::parse("Stable"), None);
    assert_eq!(Mode::parse(""), None);
    assert_eq!(Edition::parse("2018 "), None);
}

#[test]
fn absent_options_take_the_defaults() {
    let run = valid_run(false);
    assert_eq!(run.version(), "stable");
    assert_eq!(run.mode(), "debug");
    assert_eq!(run.edition(), "2018");
    let share = Share::new(None, None, None);
    assert_eq!(share.version(), "stable");
    assert_eq!(share.mode(), "debug");
    assert_eq!(share.edition(), "2018");
}

#[test]
fn given_options_are_kept() {
    let run = Run::new(
        Some("nightly".to_string()),
        Some("release".to_string()),
        Some("2015".to_string()),
        true,
    );
    assert_eq!(run.version(), "nightly");
    assert_eq!(run.mode(), "release");
    assert_eq!(run.edition(), "2015");
    assert!(run.open);
}

#[test]
fn browser_url_code_parameter_round_trips() {
    let code = "fn main() { println!(\"Hello!\"); }";
    let job = match run_start(&valid_run(true)) {
        RunStart::ReadFile(job) => job,
        RunStart::Reject(_) => panic!("default options must validate"),
    };
    match run_with_file(&job, Ok(code.to_string())) {
        RunNext::Browse(url) => {
            let prefix = "https://play.rust-lang.org/?version=stable&mode=debug&edition=2018&code=";
            assert!(url.starts_with(prefix), "unexpected url: {}", url);
            let param = &url[prefix.len()..];
            let decoded = percent_decode(param).expect("the embedded code must decode");
            assert_eq!(decoded, code.as_bytes());
        }
        _ => panic!("with --open the run command must build a browser URL"),
    }
}

#[test]
fn browser_url_round_trips_beyond_ascii() {
    let code = "fn main() { println!(\"héllo → wörld\"); }";
    let job = match run_start(&valid_run(true)) {
        RunStart::ReadFile(job) => job,
        RunStart::Reject(_) => panic!("default options must validate"),
    };
    match run_with_file(&job, Ok(code.to_string())) {
        RunNext::Browse(url) => {
            let param = url.split("&code=").nth(1).expect("the URL must carry a code parameter");
            let decoded = percent_decode(param).expect("the embedded code must decode");
            assert_eq!(String::from_utf8(decoded).unwrap(), code);
        }
        _ => panic!("with --open the run command must build a browser URL"),
    }
}

#[test]
fn browser_url_escapes_non_alphanumeric_bytes() {
    let job = match run_start(&valid_run(true)) {
        RunStart::ReadFile(job) => job,
        RunStart::Reject(_) => panic!("default options must validate"),
    };
    match run_with_file(&job, Ok("a b".to_string())) {
        RunNext::Browse(url) => {
            assert!(url.ends_with("&code=a%20b"), "unexpected url: {}", url);
        }
        _ => panic!("with --open the run command must build a browser URL"),
    }
}

#[test]
fn run_payload_holds_code_verbatim_and_fixed_fields() {
    let code = "fn main() { println!(\"Hello!\"); }";
    let job = match run_start(&valid_run(false)) {
        RunStart::ReadFile(job) => job,
        RunStart::Reject(_) => panic!("default options must validate"),
    };
    match run_with_file(&job, Ok(code.to_string())) {
        RunNext::Post(req) => {
            assert_eq!(req.code, code);
            assert!(!req.backtrace);
            assert_eq!(req.channel, "stable");
            assert_eq!(req.crate_type, "bin");
            assert_eq!(req.edition, "2018");
            assert_eq!(req.mode, "debug");
            assert!(!req.tests);
        }
        _ => panic!("without --open the run command must post to the execute endpoint"),
    }
}

#[test]
fn run_payload_carries_non_default_options() {
    let run = Run::new(
        Some("nightly".to_string()),
        Some("release".to_string()),
        Some("2015".to_string()),
        false,
    );
    let job = match run_start(&run) {
        RunStart::ReadFile(job) => job,
        RunStart::Reject(_) => panic!("nightly/release/2015 must validate"),
    };
    match run_with_file(&job, Ok("fn main() {}".to_string())) {
        RunNext::Post(req) => {
            assert_eq!(req.channel, "nightly");
            assert_eq!(req.mode, "release");
            assert_eq!(req.edition, "2015");
            assert_eq!(req.code, "fn main() {}");
            assert!(!req.backtrace);
            assert_eq!(req.crate_type, "bin");
            assert!(!req.tests);
        }
        _ => panic!("without --open the run command must post to the execute endpoint"),
    }
}

#[test]
fn run_payload_default_matches_the_fixed_fields() {
    let req = RunReq::default();
    assert!(!req.backtrace);
    assert_eq!(req.channel, "stable");
    assert_eq!(req.code, "");
    assert_eq!(req.crate_type, "bin");
    assert_eq!(req.edition, "2018");
    assert_eq!(req.mode, "debug");
    assert!(!req.tests);
}

#[test]
fn share_builds_the_exact_gist_url() {
    let opts = Options { channel: Channel::Nightly, mode: Mode::Release, edition: Edition::E2015 };
    let res = share_with_response(&opts, Ok(GistRes { id: "abc123".to_string() }));
    assert_eq!(
        res,
        ShareOutcome::Url(
            "https://play.rust-lang.org/?version=nightly&mode=release&edition=2015&gist=abc123"
                .to_string()
        )
    );
}

#[test]
fn share_posts_the_code_alone() {
    match share_with_file(Ok("fn main() {}".to_string())) {
        ShareNext::Post(req) => assert_eq!(req.code, "fn main() {}"),
        ShareNext::Fail(_) => panic!("a read file must be posted"),
    }
}

#[test]
fn unreadable_file_fails_run_with_no_network_call() {
    let job = match run_start(&valid_run(false)) {
        RunStart::ReadFile(job) => job,
        RunStart::Reject(_) => panic!("default options must validate"),
    };
    let mut network_calls = 0;
    match run_with_file(&job, Err("No such file or directory (os error 2)".to_string())) {
        RunNext::Fail(line) => {
            assert_eq!(
                line,
                "Error: failed to execute `run` command: failed to open given file: \
                 No such file or directory (os error 2)"
            );
        }
        RunNext::Post(_) => network_calls += 1,
        RunNext::Browse(_) => panic!("a failed read must not build a URL"),
    }
    assert_eq!(network_calls, 0);
}

#[test]
fn unreadable_file_fails_share_with_no_network_call() {
    let mut network_calls = 0;
    match share_with_file(Err("permission denied".to_string())) {
        ShareNext::Fail(line) => {
            assert_eq!(
                line,
                "Error: failed to execute `share` command: failed to open given file: permission denied"
            );
        }
        ShareNext::Post(_) => network_calls += 1,
    }
    assert_eq!(network_calls, 0);
}

#[test]
fn run_output_is_stderr_then_newline_then_stdout() {
    let res = RunRes { success: true, stdout: "hi\n".to_string(), stderr: "".to_string() };
    assert_eq!(run_with_response(Ok(res)), RunOutcome::Output("\nhi\n".to_string()));
    let res = RunRes {
        success: false,
        stdout: "partial".to_string(),
        stderr: "boom".to_string(),
    };
    assert_eq!(run_with_response(Ok(res)), RunOutcome::Output("boom\npartial".to_string()));
}

#[test]
fn transport_failures_wrap_the_cause() {
    assert_eq!(
        run_with_response(Err("connection refused".to_string())),
        RunOutcome::Failure(
            "Error: failed to execute `run` command: failed to get a successful response: connection refused"
                .to_string()
        )
    );
    let opts = Options { channel: Channel::Stable, mode: Mode::Debug, edition: Edition::E2018 };
    assert_eq!(
        share_with_response(&opts, Err("timed out".to_string())),
        ShareOutcome::Failure(
            "Error: failed to execute `share` command: failed to get a successful response: timed out"
                .to_string()
        )
    );
}

#[test]
fn percent_decode_reads_plain_escaped_and_mixed_text() {
    assert_eq!(percent_decode("abc"), Some(b"abc".to_vec()));
    assert_eq!(percent_decode("%41"), Some(b"A".to_vec()));
    assert_eq!(percent_decode("%2f"), Some(b"/".to_vec()));
    assert_eq!(percent_decode("a%20b"), Some(b"a b".to_vec()));
    assert_eq!(percent_decode(""), Some(Vec::new()));
}

#[test]
fn percent_decode_rejects_malformed_text() {
    assert_eq!(percent_decode("%4"), None);
    assert_eq!(percent_decode("%zz"), None);
    assert_eq!(percent_decode("%"), None);
    assert_eq!(percent_decode("é"), None);
}

#[test]
fn subcommands_are_run_and_share_only() {
    assert_eq!(parse_subcmd(&Some("run".to_string())), Some(Subcmd::Run));
    assert_eq!(parse_subcmd(&Some("share".to_string())), Some(Subcmd::Share));
    assert_eq!(parse_subcmd(&Some("publish".to_string())), None);
    assert_eq!(parse_subcmd(&None), None);
}

#[test]
fn browser_launch_commands_per_platform() {
    let url = "https://play.rust-lang.org/?version=stable&mode=debug&edition=2018&code=a";
    let launch = browser_command(OsFamily::Windows, url.to_string()).unwrap();
    assert_eq!(launch.program, "rundll32.exe");
    assert_eq!(launch.args, vec!["url.dll,FileProtocolHandler".to_string(), url.to_string()]);
    let launch = browser_command(OsFamily::MacOs, url.to_string()).unwrap();
    assert_eq!(launch.program, "open");
    assert_eq!(launch.args, vec![url.to_string()]);
    let launch = browser_command(OsFamily::Linux, url.to_string()).unwrap();
    assert_eq!(launch.program, "xdg-open");
    assert_eq!(launch.args, vec![url.to_string()]);
    assert_eq!(browser_command(OsFamily::Other, url.to_string()), None);
}
