use emacs_pin::cache::text_to_write;
use emacs_pin::evaluator::{
    eval_command, evaluate, overlay_query, package_query, read_outcome, to_sri_command,
};
use emacs_pin::host::{answer, read_hostname};
use emacs_pin::paths::CacheFile;
use emacs_pin::prefetch::{choose_hash, is_usable, prefetch_command, read_prefetch, HashChoice};
use emacs_pin::session::{
    is_answer, same_bytes, same_invocation, same_request, same_texts, Completion, Exchange,
    Invocation, Phase, PrefetchResult, Reply, Request, Session, Settings, Stream,
};
use emacs_pin::unpin::{remove_cache_file, remove_cache_files};
use emacs_pin::{
    ensure_cache_dir, extract_configured_emacs_outpath, extract_current_emacs_commit,
    extract_current_emacs_hash_sri, extract_current_emacs_src_outpath, fetch_hash_for_commit,
    get_hostname, get_system_architecture, read_cache_file, resolve_config_path,
    resolve_store_path, sri_from_base32, write_cache_file, EmacsError,
};

fn settings() -> Settings {
    Settings { cache_dir: "/c".to_string(), arch: "aarch64".to_string() }
}

fn text(value: &str) -> Reply {
    Reply::Text(Some(value.to_string()))
}

fn printed(stdout: &str) -> Reply {
    Reply::Ran(
        Completion::Exited {
            success: true,
            stdout: stdout.as_bytes().to_vec(),
            stderr: b"warning: ignored".to_vec(),
        },
    )
}

fn failed(stderr: &str) -> Reply {
    Reply::Ran(
        Completion::Exited {
            success: false,
            stdout: b"partial".to_vec(),
            stderr: stderr.as_bytes().to_vec(),
        },
    )
}

fn not_started(reason: &str) -> Reply {
    Reply::Ran(Completion::Failed { reason: reason.to_string() })
}

/// Runs `step` with the given replies, each put on record for the request
/// that the step makes at that point.
fn with_replies<T>(replies: Vec<Reply>, step: impl Fn(&mut Session) -> Option<T>) -> (
    Option<T>,
    Vec<Request>,
    Phase,
) {
    let settings = settings();
    let mut record: Vec<Exchange> = Vec::new();
    for reply in replies {
        let mut session = Session::new(&settings, &record);
        assert!(step(&mut session).is_none(), "the step ended before all replies were used");
        let request = session.into_pending().expect("the step waits for a reply");
        record.push(Exchange { request, reply });
    }
    let mut session = Session::new(&settings, &record);
    let value = step(&mut session);
    let phase = session.phase();
    assert!(session.output().is_empty());
    (value, session.into_parts().0, phase)
}

fn message(r: Option<Result<String, EmacsError>>) -> Option<Result<String, String>> {
    r.map(|r| r.map_err(|e| e.message))
}

fn done(r: Option<Result<(), EmacsError>>) -> Option<Result<(), String>> {
    r.map(|r| r.map_err(|e| e.message))
}

fn nix_eval(expression: &str) -> Request {
    Request::Run(
        Invocation {
            program: "nix".to_string(),
            args: vec![
                "eval".to_string(),
                "--raw".to_string(),
                "--impure".to_string(),
                "--expr".to_string(),
                expression.to_string(),
            ],
            dir: Some("/cfg".to_string()),
        },
    )
}

// -------------------------------------------------------------- error

#[test]
fn an_error_holds_its_message() {
    let e = EmacsError::new("nix-prefetch-github returned no valid hash".to_string());
    assert_eq!(e.message, "nix-prefetch-github returned no valid hash");
    assert_eq!(e.to_string(), "nix-prefetch-github returned no valid hash");
    assert_eq!(EmacsError::new(String::new()).to_string(), "");
}

// ------------------------------------------------------ configuration

#[test]
fn the_checkout_is_where_the_variable_says() {
    let (path, requests, _) =
        with_replies(vec![text("/Users/alice/darwin-config"), Reply::Flag(true)], resolve_config_path);
    assert_eq!(message(path), Some(Ok("/Users/alice/darwin-config".to_string())));
    assert_eq!(
        requests,
        vec![
            Request::ReadEnv { name: "DARWIN_CONFIG_PATH".to_string() },
            Request::PathExists { path: "/Users/alice/darwin-config/flake.nix".to_string() },
        ]
    );
}

#[test]
fn the_checkout_is_unknown_without_the_variable() {
    let (path, requests, _) = with_replies(vec![Reply::Text(None)], resolve_config_path);
    assert_eq!(
        message(path),
        Some(Err(
            "\u{274c} DARWIN_CONFIG_PATH is not set\n  Please run: nix run .#record-config-path"
                .to_string()
        ))
    );
    assert_eq!(requests.len(), 1);
}

#[test]
fn the_checkout_needs_a_flake() {
    let (path, _, _) = with_replies(vec![text("/tmp/x/"), Reply::Flag(false)], resolve_config_path);
    assert_eq!(
        message(path),
        Some(Err(
            "\u{274c} DARWIN_CONFIG_PATH (/tmp/x/) does not point to a darwin-config checkout\n  Expected to find: /tmp/x/flake.nix"
                .to_string()
        ))
    );
}

// ---------------------------------------------------------- evaluator

#[test]
fn the_queries_are_small_expressions() {
    assert_eq!(
        overlay_query("x86_64-darwin", "rev"),
        "\n        let\n          flake = builtins.getFlake (toString ./.);\n          em = flake.inputs.emacs-overlay.packages.\"x86_64-darwin\".emacs-git;\n        in em.src.rev\n    "
    );
    assert_eq!(
        package_query("aarch64-darwin", "predator"),
        "\n        let\n          flake = builtins.getFlake (toString ./.);\n        in flake.packages.\"aarch64-darwin\".\"predator-configuredEmacs\".outPath\n    "
    );
}

#[test]
fn the_evaluator_is_run_in_the_checkout() {
    let invocation = eval_command("/cfg", "1 + 1".to_string());
    assert_eq!(invocation.program, "nix");
    assert_eq!(invocation.args, vec!["eval", "--raw", "--impure", "--expr", "1 + 1"]);
    assert_eq!(invocation.dir.as_deref(), Some("/cfg"));
    let invocation = to_sri_command("0abc");
    assert_eq!(invocation.program, "nix");
    assert_eq!(invocation.args, vec!["hash", "to-sri", "--type", "sha256", "0abc"]);
    assert_eq!(invocation.dir, None);
}

#[test]
fn an_answer_is_the_trimmed_output() {
    let (answer, requests, _) =
        with_replies(vec![printed("\n  7  \n")], |s| evaluate(s, "/cfg", "3 + 4".to_string()));
    assert_eq!(message(answer), Some(Ok("7".to_string())));
    assert_eq!(requests, vec![nix_eval("3 + 4")]);
}

#[test]
fn a_failed_evaluation_reports_standard_error() {
    let (answer, _, _) = with_replies(vec![failed("error: undefined variable\n")], |s| {
        evaluate(s, "/cfg", "x".to_string())
    });
    assert_eq!(
        message(answer),
        Some(Err("Nix evaluation failed: error: undefined variable\n".to_string()))
    );
    let (answer, _, _) = with_replies(vec![not_started("No such file or directory (os error 2)")], |s| {
        evaluate(s, "/cfg", "x".to_string())
    });
    assert_eq!(
        message(answer),
        Some(Err("Failed to execute nix: No such file or directory (os error 2)".to_string()))
    );
}

#[test]
fn output_that_is_not_utf8_is_read_with_replacement_characters() {
    let completion = Completion::Exited {
        success: true,
        stdout: vec![b' ', b'a', 0xff, b'b', 0xc3, 0xa9, b'\n'],
        stderr: Vec::new(),
    };
    let outcome = read_outcome(&completion, "nix", "failed: ").map_err(|e| e.message);
    assert_eq!(outcome, Ok("a\u{fffd}b\u{e9}".to_string()));
    let completion = Completion::Exited {
        success: false,
        stdout: Vec::new(),
        stderr: vec![0xe2, 0x9c, 0x85, b' ', 0x80],
    };
    let outcome = read_outcome(&completion, "nix", "failed: ").map_err(|e| e.message);
    assert_eq!(outcome, Err("failed: \u{2705} \u{fffd}".to_string()));
}

#[test]
fn the_current_commit_is_asked_of_the_overlay() {
    let (commit, requests, _) = with_replies(vec![printed("abc123def\n")], |s| {
        extract_current_emacs_commit(s, "/cfg", "aarch64-darwin")
    });
    assert_eq!(message(commit), Some(Ok("abc123def".to_string())));
    assert_eq!(requests, vec![nix_eval(&overlay_query("aarch64-darwin", "rev"))]);
}

#[test]
fn the_source_path_is_asked_of_the_overlay() {
    let (path, requests, _) = with_replies(vec![printed("/nix/store/abc-source")], |s| {
        extract_current_emacs_src_outpath(s, "/cfg", "aarch64-darwin")
    });
    assert_eq!(message(path), Some(Ok("/nix/store/abc-source".to_string())));
    assert_eq!(requests, vec![nix_eval(&overlay_query("aarch64-darwin", "outPath"))]);
}

#[test]
fn the_built_path_is_asked_of_the_flake() {
    let (path, requests, _) = with_replies(vec![printed("/nix/store/xyz-emacs\n")], |s| {
        extract_configured_emacs_outpath(s, "/cfg", "predator", "x86_64-darwin")
    });
    assert_eq!(message(path), Some(Ok("/nix/store/xyz-emacs".to_string())));
    assert_eq!(requests, vec![nix_eval(&package_query("x86_64-darwin", "predator"))]);
    let (path, _, _) = with_replies(vec![failed("error: no such package")], |s| {
        extract_configured_emacs_outpath(s, "/cfg", "predator", "x86_64-darwin")
    });
    assert_eq!(message(path), Some(Err("Nix evaluation failed: error: no such package".to_string())));
}

#[test]
fn the_source_hash_is_converted() {
    let (hash, requests, _) = with_replies(vec![printed("0abc\n"), printed("sha256-xyz=\n")], |s| {
        extract_current_emacs_hash_sri(s, "/cfg", "aarch64-darwin")
    });
    assert_eq!(message(hash), Some(Ok("sha256-xyz=".to_string())));
    assert_eq!(requests.len(), 2);
    assert_eq!(requests[0], nix_eval(&overlay_query("aarch64-darwin", "outputHash")));
    assert_eq!(requests[1], Request::Run(to_sri_command("0abc")));
}

#[test]
fn the_source_hash_is_not_converted_when_it_cannot_be_read() {
    let (hash, requests, _) = with_replies(vec![failed("no")], |s| {
        extract_current_emacs_hash_sri(s, "/cfg", "aarch64-darwin")
    });
    assert_eq!(message(hash), Some(Err("Nix evaluation failed: no".to_string())));
    assert_eq!(requests.len(), 1);
}

#[test]
fn a_conversion_is_one_run() {
    let (sri, requests, _) = with_replies(vec![printed(" sha256-xyz= ")], |s| sri_from_base32(s, "0abc"));
    assert_eq!(message(sri), Some(Ok("sha256-xyz=".to_string())));
    assert_eq!(requests, vec![Request::Run(to_sri_command("0abc"))]);
    let (sri, _, _) = with_replies(vec![failed("bad hash")], |s| sri_from_base32(s, "0abc"));
    assert_eq!(message(sri), Some(Err("Hash conversion failed: bad hash".to_string())));
    let (sri, _, _) = with_replies(vec![not_started("gone")], |s| sri_from_base32(s, "0abc"));
    assert_eq!(message(sri), Some(Err("Failed to execute nix: gone".to_string())));
}

#[test]
fn a_store_path_is_resolved_or_kept() {
    let (path, requests, _) =
        with_replies(vec![text("/nix/store/real")], |s| resolve_store_path(s, "/run/link"));
    assert_eq!(path, Some("/nix/store/real".to_string()));
    assert_eq!(requests, vec![Request::Canonicalize { path: "/run/link".to_string() }]);
    let (path, _, _) = with_replies(vec![Reply::Text(None)], |s| resolve_store_path(s, "/run/link"));
    assert_eq!(path, Some("/run/link".to_string()));
}

// ----------------------------------------------------------- prefetch

#[test]
fn the_helper_is_run_for_the_emacs_mirror() {
    let invocation = prefetch_command("abc123d");
    assert_eq!(invocation.program, "nix-prefetch-github");
    assert_eq!(invocation.args, vec!["emacs-mirror", "emacs", "--rev", "abc123d"]);
    assert_eq!(invocation.dir, None);
}

#[test]
fn a_field_is_usable_if_it_holds_something() {
    assert!(is_usable(&Some("sha256-abc=".to_string())));
    assert!(is_usable(&Some(" ".to_string())));
    assert!(is_usable(&Some("NULL".to_string())));
    assert!(!is_usable(&Some("null".to_string())));
    assert!(!is_usable(&Some(String::new())));
    assert!(!is_usable(&None));
}

#[test]
fn the_canonical_field_is_preferred() {
    let both = PrefetchResult { hash: Some("sha256-a=".to_string()), sha256: Some("0b".to_string()) };
    assert_eq!(choose_hash(&both), HashChoice::Canonical("sha256-a=".to_string()));
    let legacy = PrefetchResult { hash: Some("null".to_string()), sha256: Some("0b".to_string()) };
    assert_eq!(choose_hash(&legacy), HashChoice::Legacy("0b".to_string()));
    let legacy = PrefetchResult { hash: None, sha256: Some("0b".to_string()) };
    assert_eq!(choose_hash(&legacy), HashChoice::Legacy("0b".to_string()));
    let neither = PrefetchResult { hash: Some(String::new()), sha256: None };
    assert_eq!(choose_hash(&neither), HashChoice::Neither);
    let neither = PrefetchResult { hash: None, sha256: Some("null".to_string()) };
    assert_eq!(choose_hash(&neither), HashChoice::Neither);
}

#[test]
fn the_helper_hands_its_output_on_as_bytes() {
    let json = vec![b'{', b'}', 0xff];
    let completion =
        Completion::Exited { success: true, stdout: json.clone(), stderr: b"noise".to_vec() };
    assert_eq!(read_prefetch(&completion).map_err(|e| e.message), Ok(json));
}

#[test]
fn a_hash_is_fetched_in_up_to_three_steps() {
    let fields = PrefetchResult { hash: None, sha256: Some("0abc".to_string()) };
    let (hash, requests, _) = with_replies(
        vec![printed("{\"sha256\":\"0abc\"}"), Reply::Decoded(Ok(fields)), printed("sha256-xyz=\n")],
        |s| fetch_hash_for_commit(s, "abc123d"),
    );
    assert_eq!(message(hash), Some(Ok("sha256-xyz=".to_string())));
    assert_eq!(
        requests,
        vec![
            Request::Run(prefetch_command("abc123d")),
            Request::DecodePrefetch { json: b"{\"sha256\":\"0abc\"}".to_vec() },
            Request::Run(to_sri_command("0abc")),
        ]
    );
}

#[test]
fn a_canonical_hash_is_returned_as_it_is() {
    let fields = PrefetchResult { hash: Some(" sha256-a= ".to_string()), sha256: None };
    let (hash, requests, _) = with_replies(vec![printed("{}"), Reply::Decoded(Ok(fields))], |s| {
        fetch_hash_for_commit(s, "abc123d")
    });
    assert_eq!(message(hash), Some(Ok(" sha256-a= ".to_string())));
    assert_eq!(requests.len(), 2);
}

#[test]
fn a_fetch_fails_in_four_ways() {
    let (hash, _, _) = with_replies(vec![not_started("gone")], |s| fetch_hash_for_commit(s, "abc123d"));
    assert_eq!(message(hash), Some(Err("Failed to execute nix-prefetch-github: gone".to_string())));
    let (hash, _, _) = with_replies(vec![failed("404")], |s| fetch_hash_for_commit(s, "abc123d"));
    assert_eq!(message(hash), Some(Err("nix-prefetch-github failed: 404".to_string())));
    let (hash, _, _) = with_replies(
        vec![printed("<html>"), Reply::Decoded(Err("expected value at line 1 column 1".to_string()))],
        |s| fetch_hash_for_commit(s, "abc123d"),
    );
    assert_eq!(
        message(hash),
        Some(Err("Failed to parse JSON output: expected value at line 1 column 1".to_string()))
    );
    let fields = PrefetchResult { hash: None, sha256: None };
    let (hash, _, _) = with_replies(vec![printed("{}"), Reply::Decoded(Ok(fields))], |s| {
        fetch_hash_for_commit(s, "abc123d")
    });
    assert_eq!(message(hash), Some(Err("nix-prefetch-github returned no valid hash".to_string())));
    let fields = PrefetchResult { hash: None, sha256: Some("0abc".to_string()) };
    let (hash, _, _) = with_replies(
        vec![printed("{}"), Reply::Decoded(Ok(fields)), failed("bad")],
        |s| fetch_hash_for_commit(s, "abc123d"),
    );
    assert_eq!(message(hash), Some(Err("Hash conversion failed: bad".to_string())));
}

// -------------------------------------------------------------- cache

#[test]
fn what_is_written_reads_back_for_each_file() {
    for file in [CacheFile::Pin, CacheFile::Hash, CacheFile::StorePath] {
        let (_, requests, _) = with_replies(
            vec![
                Reply::Finished(Ok(())),
                Reply::Finished(Ok(())),
                Reply::Finished(Ok(())),
                Reply::Finished(Ok(())),
            ],
            |s| write_cache_file(s, file, "abc123"),
        );
        let written = match &requests[2] {
            Request::WriteText { text, .. } => text.clone(),
            other => panic!("{:?}", other),
        };
        assert_eq!(written, "abc123\n");
        let (content, requests, _) = with_replies(vec![text(&written)], |s| read_cache_file(s, file));
        assert_eq!(content, Some(Some("abc123".to_string())));
        assert_eq!(requests, vec![Request::ReadFile { path: file.file_path("/c") }]);
    }
}

#[test]
fn a_file_that_is_not_there_reads_as_none() {
    for file in [CacheFile::Pin, CacheFile::Hash, CacheFile::StorePath] {
        let (content, _, phase) = with_replies(vec![Reply::Text(None)], |s| read_cache_file(s, file));
        assert_eq!(content, Some(None));
        assert_eq!(phase, Phase::Running);
    }
}

#[test]
fn a_file_is_read_without_the_white_space_at_its_ends() {
    let (content, _, _) =
        with_replies(vec![text("\n  sha256-abc=  \n\n")], |s| read_cache_file(s, CacheFile::Hash));
    assert_eq!(content, Some(Some("sha256-abc=".to_string())));
    let (content, _, _) = with_replies(vec![text(" \n")], |s| read_cache_file(s, CacheFile::Hash));
    assert_eq!(content, Some(Some(String::new())));
}

#[test]
fn a_write_makes_four_requests() {
    let ok = || Reply::Finished(Ok(()));
    let (written, requests, _) = with_replies(vec![ok(), ok(), ok(), ok()], |s| {
        write_cache_file(s, CacheFile::StorePath, " /nix/store/xyz \n")
    });
    assert_eq!(done(written), Some(Ok(())));
    assert_eq!(
        requests,
        vec![
            Request::CreateDirAll { path: "/c".to_string() },
            Request::CreateFile { path: "/c/emacs-git-store-path.tmp".to_string() },
            Request::WriteText {
                path: "/c/emacs-git-store-path.tmp".to_string(),
                text: "/nix/store/xyz\n".to_string(),
            },
            Request::Rename {
                from: "/c/emacs-git-store-path.tmp".to_string(),
                to: "/c/emacs-git-store-path".to_string(),
            },
        ]
    );
    assert_eq!(text_to_write(" /nix/store/xyz \n"), "/nix/store/xyz\n");
}

#[test]
fn a_write_ends_at_the_step_that_fails() {
    let ok = || Reply::Finished(Ok(()));
    let no = || Reply::Finished(Err("Read-only file system (os error 30)".to_string()));
    let steps = [
        "Failed to create cache directory: ",
        "Failed to create temp file: ",
        "Failed to write to temp file: ",
        "Failed to rename temp file: ",
    ];
    for (n, step) in steps.iter().enumerate() {
        let mut replies: Vec<Reply> = (0..n).map(|_| ok()).collect();
        replies.push(no());
        let (written, requests, _) =
            with_replies(replies, |s| write_cache_file(s, CacheFile::Pin, "abc123d"));
        assert_eq!(
            done(written),
            Some(Err(format!("{}Read-only file system (os error 30)", step)))
        );
        assert_eq!(requests.len(), n + 1);
    }
}

#[test]
fn the_cache_directory_is_made() {
    let (made, requests, _) = with_replies(vec![Reply::Finished(Ok(()))], ensure_cache_dir);
    assert_eq!(done(made), Some(Ok(())));
    assert_eq!(requests, vec![Request::CreateDirAll { path: "/c".to_string() }]);
    let (made, _, _) =
        with_replies(vec![Reply::Finished(Err("Permission denied".to_string()))], ensure_cache_dir);
    assert_eq!(done(made), Some(Err("Permission denied".to_string())));
}

#[test]
fn a_file_is_removed_if_it_is_there() {
    let (removed, requests, _) =
        with_replies(vec![Reply::Flag(false)], |s| remove_cache_file(s, CacheFile::Hash));
    assert_eq!(removed, Some(false));
    assert_eq!(requests, vec![Request::PathExists { path: "/c/emacs-git-pin-hash".to_string() }]);
    let (removed, requests, _) = with_replies(vec![Reply::Flag(true), Reply::Finished(Ok(()))], |s| {
        remove_cache_file(s, CacheFile::Hash)
    });
    assert_eq!(removed, Some(true));
    assert_eq!(requests[1], Request::RemoveFile { path: "/c/emacs-git-pin-hash".to_string() });
}

fn removal_warning(cache_dir: &str) -> (String, String) {
    let settings = Settings { cache_dir: cache_dir.to_string(), arch: "aarch64".to_string() };
    let path = CacheFile::Pin.file_path(&settings.cache_dir);
    let record = vec![
        Exchange { request: Request::PathExists { path: path.clone() }, reply: Reply::Flag(true) },
        Exchange {
            request: Request::RemoveFile { path: path.clone() },
            reply: Reply::Finished(Err("Operation not permitted (os error 1)".to_string())),
        },
    ];
    let mut session = Session::new(&settings, &record);
    assert_eq!(remove_cache_file(&mut session, CacheFile::Pin), Some(false));
    let mut output = session.into_parts().1;
    assert_eq!(output.len(), 1);
    assert_eq!(output[0].stream, Stream::Stderr);
    (output.remove(0).text, path)
}

#[test]
fn a_failed_removal_is_a_warning_with_the_path_in_quotes() {
    let (warning, _) = removal_warning("/c \"x\"\\y\n");
    assert_eq!(
        warning,
        "Warning: Failed to remove \"/c \\\"x\\\"\\\\y\\n/emacs-git-pin\": Operation not permitted (os error 1)"
    );
}

#[test]
fn a_path_is_quoted_as_its_debug_form() {
    for dir in ["/home/alice/.cache", "/c 'z'\t\u{7f}", "/\u{e9}t\u{e9}/\u{301}x", ""] {
        let (warning, path) = removal_warning(dir);
        assert_eq!(
            warning,
            format!(
                "Warning: Failed to remove {:?}: Operation not permitted (os error 1)",
                std::path::Path::new(&path)
            )
        );
    }
}

#[test]
fn the_removed_files_are_listed() {
    let gone = || Reply::Flag(false);
    let there = || Reply::Flag(true);
    let ok = || Reply::Finished(Ok(()));
    let (list, _, _) = with_replies(vec![gone(), gone(), gone()], remove_cache_files);
    assert_eq!(list, Some(String::new()));
    let (list, _, _) = with_replies(vec![gone(), there(), ok(), gone()], remove_cache_files);
    assert_eq!(list, Some("emacs-git-pin-hash".to_string()));
    let (list, _, _) = with_replies(vec![there(), ok(), gone(), there(), ok()], remove_cache_files);
    assert_eq!(list, Some("emacs-git-pin, emacs-git-store-path".to_string()));
    let (list, requests, _) =
        with_replies(vec![there(), ok(), there(), ok(), there(), ok()], remove_cache_files);
    assert_eq!(list, Some("emacs-git-pin, emacs-git-pin-hash, emacs-git-store-path".to_string()));
    assert_eq!(requests.len(), 6);
}

// --------------------------------------------------------------- host

#[test]
fn the_platform_is_named_after_the_architecture() {
    assert_eq!(get_system_architecture("aarch64"), "aarch64-darwin");
    assert_eq!(get_system_architecture("x86_64"), "x86_64-darwin");
    assert_eq!(get_system_architecture("riscv64"), "aarch64-darwin");
    assert_eq!(get_system_architecture(""), "aarch64-darwin");
}

#[test]
fn the_host_name_is_the_short_name_that_the_system_reports() {
    let (name, requests, _) = with_replies(vec![text("predator.local")], get_hostname);
    assert_eq!(name, Some("predator".to_string()));
    assert_eq!(requests, vec![Request::Hostname]);
}

#[test]
fn the_host_name_falls_back_to_the_environment() {
    let (name, requests, _) =
        with_replies(vec![Reply::Text(None), text("build-7.example.org")], get_hostname);
    assert_eq!(name, Some("build-7".to_string()));
    assert_eq!(requests[1], Request::ReadEnv { name: "HOSTNAME".to_string() });
}

#[test]
fn the_host_name_falls_back_to_the_hostname_program() {
    let (name, requests, _) =
        with_replies(vec![Reply::Text(None), Reply::Text(None), printed("mini\n")], get_hostname);
    assert_eq!(name, Some("mini".to_string()));
    assert_eq!(
        requests[2],
        Request::Run(
            Invocation { program: "hostname".to_string(), args: vec!["-s".to_string()], dir: None }
        )
    );
}

#[test]
fn the_host_name_is_unknown_when_all_else_fails() {
    for last in [failed("no"), not_started("gone")] {
        let (name, _, _) = with_replies(vec![Reply::Text(None), Reply::Text(None), last], get_hostname);
        assert_eq!(name, Some("unknown".to_string()));
    }
    let completion = Completion::Failed { reason: "gone".to_string() };
    assert_eq!(read_hostname(&completion), "unknown");
}

#[test]
fn the_library_answers_the_request_for_the_host_name_itself() {
    let expected = hostname::get().ok().and_then(|name| name.into_string().ok());
    assert_eq!(answer(&Request::Hostname), Some(Reply::Text(expected)));
}

#[test]
fn the_library_answers_no_other_request() {
    assert_eq!(answer(&Request::ReadEnv { name: "HOSTNAME".to_string() }), None);
    assert_eq!(answer(&Request::PathExists { path: "/".to_string() }), None);
    assert_eq!(answer(&Request::ReadFile { path: "/etc/hostname".to_string() }), None);
    assert_eq!(answer(&Request::Run(prefetch_command("abc123d"))), None);
}

// ------------------------------------------------------------ session

#[test]
fn requests_are_compared_field_by_field() {
    let a = Request::Run(eval_command("/cfg", "x".to_string()));
    assert!(same_request(&a, &Request::Run(eval_command("/cfg", "x".to_string()))));
    assert!(!same_request(&a, &Request::Run(eval_command("/cfg", "y".to_string()))));
    assert!(!same_request(&a, &Request::Run(eval_command("/other", "x".to_string()))));
    assert!(!same_request(&a, &Request::Run(to_sri_command("x"))));
    assert!(!same_request(&a, &Request::Hostname));
    assert!(same_request(&Request::Hostname, &Request::Hostname));
    let write = |path: &str, text: &str| Request::WriteText {
        path: path.to_string(),
        text: text.to_string(),
    };
    assert!(same_request(&write("/a", "t"), &write("/a", "t")));
    assert!(!same_request(&write("/a", "t"), &write("/a", "u")));
    assert!(!same_request(&write("/a", "t"), &write("/b", "t")));
    let rename = |from: &str, to: &str| Request::Rename { from: from.to_string(), to: to.to_string() };
    assert!(same_request(&rename("/a", "/b"), &rename("/a", "/b")));
    assert!(!same_request(&rename("/a", "/b"), &rename("/b", "/a")));
    let path = || "/a".to_string();
    let all = [
        Request::ReadEnv { name: path() },
        Request::PathExists { path: path() },
        Request::Canonicalize { path: path() },
        Request::Hostname,
        Request::Run(to_sri_command("/a")),
        Request::DecodePrefetch { json: b"/a".to_vec() },
        Request::ReadFile { path: path() },
        Request::CreateDirAll { path: path() },
        Request::CreateFile { path: path() },
        write("/a", "/a"),
        rename("/a", "/a"),
        Request::RemoveFile { path: path() },
    ];
    for (i, a) in all.iter().enumerate() {
        for (j, b) in all.iter().enumerate() {
            assert_eq!(same_request(a, b), i == j, "{:?} {:?}", a, b);
            assert_eq!(same_request(a, b), a == b);
        }
    }
}

#[test]
fn lists_are_compared_item_by_item() {
    let list = |items: &[&str]| items.iter().map(|i| i.to_string()).collect::<Vec<String>>();
    assert!(same_texts(&list(&[]), &list(&[])));
    assert!(same_texts(&list(&["a", "b"]), &list(&["a", "b"])));
    assert!(!same_texts(&list(&["a", "b"]), &list(&["a"])));
    assert!(!same_texts(&list(&["a", "b"]), &list(&["a", "c"])));
    assert!(!same_texts(&list(&["ab"]), &list(&["a", "b"])));
    assert!(same_bytes(&vec![1, 2], &vec![1, 2]));
    assert!(!same_bytes(&vec![1, 2], &vec![1, 3]));
    assert!(!same_bytes(&vec![1, 2], &vec![1, 2, 3]));
    let mut a = to_sri_command("x");
    let b = to_sri_command("x");
    assert!(same_invocation(&a, &b));
    a.dir = Some(String::new());
    assert!(!same_invocation(&a, &b));
}

#[test]
fn each_request_has_its_kind_of_reply() {
    let path = || "/a".to_string();
    let replies = [
        Reply::Text(None),
        Reply::Flag(false),
        Reply::Ran(Completion::Failed { reason: String::new() }),
        Reply::Decoded(Err(String::new())),
        Reply::Finished(Ok(())),
    ];
    let expected = [
        (Request::ReadEnv { name: path() }, 0),
        (Request::PathExists { path: path() }, 1),
        (Request::Canonicalize { path: path() }, 0),
        (Request::Hostname, 0),
        (Request::Run(to_sri_command("/a")), 2),
        (Request::DecodePrefetch { json: Vec::new() }, 3),
        (Request::ReadFile { path: path() }, 0),
        (Request::CreateDirAll { path: path() }, 4),
        (Request::CreateFile { path: path() }, 4),
        (Request::WriteText { path: path(), text: path() }, 4),
        (Request::Rename { from: path(), to: path() }, 4),
        (Request::RemoveFile { path: path() }, 4),
    ];
    for (request, kind) in expected.iter() {
        for (n, reply) in replies.iter().enumerate() {
            assert_eq!(is_answer(request, reply), n == *kind, "{:?} {:?}", request, reply);
        }
    }
}

#[test]
fn a_session_that_has_stopped_says_and_asks_nothing() {
    let settings = settings();
    let record: Vec<Exchange> = Vec::new();
    let mut session = Session::new(&settings, &record);
    assert_eq!(session.cache_dir(), "/c");
    assert_eq!(session.arch(), "aarch64");
    session.say("one".to_string());
    session.complain("two".to_string());
    assert!(session.ask(Request::Hostname).is_none());
    assert_eq!(session.phase(), Phase::Waiting);
    assert_eq!(session.pending(), Some(&Request::Hostname));
    session.say("three".to_string());
    assert!(session.ask(Request::ReadEnv { name: "HOME".to_string() }).is_none());
    assert!(session.ask_flag(Request::PathExists { path: "/".to_string() }).is_none());
    assert_eq!(session.requests().len(), 1);
    let texts: Vec<&str> = session.output().iter().map(|l| l.text.as_str()).collect();
    assert_eq!(texts, vec!["one", "two"]);
    assert_eq!(session.output()[0].stream, Stream::Stdout);
    assert_eq!(session.output()[1].stream, Stream::Stderr);
}

#[test]
fn a_question_of_one_kind_is_not_answered_by_a_request_of_another() {
    let settings = settings();
    let record = vec![
        Exchange { request: Request::PathExists { path: "/".to_string() }, reply: Reply::Flag(true) },
    ];
    let mut session = Session::new(&settings, &record);
    assert_eq!(session.ask_text(Request::PathExists { path: "/".to_string() }), None);
    assert_eq!(session.phase(), Phase::Mismatch);
    let mut session = Session::new(&settings, &record);
    assert_eq!(session.ask_flag(Request::PathExists { path: "/".to_string() }), Some(true));
    assert_eq!(session.phase(), Phase::Running);
    let mut session = Session::new(&settings, &record);
    assert!(session.ask_change(Request::PathExists { path: "/".to_string() }).is_none());
    assert_eq!(session.phase(), Phase::Mismatch);
}
