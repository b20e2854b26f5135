//! Decision cores of the individual action modules: parsing,
//! artifact planning, status mapping and per-item records.

use magnet::actions::create_proc::CreateProcSim;
use magnet::actions::enable_rdp::EnableRdpSimulation;
use magnet::actions::enable_ssh::{encode_ssh_telemetry, EnableSshSimulation, EnableSshTelemetry};
use magnet::actions::get_clipboard::{encode_clipboard_record, ClipboardSimulation};
use magnet::actions::get_env_vars::{encode_env_var_record, EnvVarRecord, EnvVarsSimulation};
use magnet::actions::minidump_proc::MinidumpProc;
use magnet::actions::named_pipe_sim::NamedPipeSimulation;
use magnet::actions::pwd_guessing::{encode_guessing_telemetry, GuessingTelemetry, PwdGuessingSim};
use magnet::actions::ransom_note::RansomNote;
use magnet::actions::registry_persistence::{
    encode_registry_telemetry, RegistryPersistenceSim, RegistryPersistenceTelemetry,
};
use magnet::actions::startup_exec::StartupExecSim;
use magnet::actions::time_manipulation_sim::{encode_time_attempt, TimeManipulationSimulation};
use magnet::config::RunConfig;
use magnet::ledger::Ledger;
use magnet::record::{ActionError, Status};

fn cfg(dry_run: bool) -> RunConfig {
    RunConfig::new(String::from("t-77"), dry_run, String::from("C:\\out"))
}

#[test]
fn admin_enumeration_output_parses_to_account_names() {
    let output = "Alias name     administrators\r\n\
                  Comment        Administrators have complete access\r\n\
                  \r\n\
                  Members\r\n\
                  \r\n\
                  -------------------------------------------------------------------------------\r\n\
                  Administrator\r\n\
                  bob\r\n\
                  The command completed successfully.\r\n";
    let accounts = PwdGuessingSim::parse_admin_accounts(output);
    assert_eq!(accounts, vec!["Administrator", "bob"]);
}

#[test]
fn admin_parsing_trims_and_drops_separators() {
    let output = "  alice  \n***---***\n\t\n  The command completed successfully.\n";
    let accounts = PwdGuessingSim::parse_admin_accounts(output);
    assert_eq!(accounts, vec!["alice"]);
}

#[test]
fn guessing_telemetry_encodes_accounts_and_attempts() {
    let t = GuessingTelemetry {
        test_id: String::from("t-77"),
        timestamp: String::from("ts"),
        accounts: vec![String::from("Administrator"), String::from("bob")],
        attempts: vec![
            PwdGuessingSim::build_attempt(
                String::from("bob"),
                String::from("Password123!"),
                false,
                1326,
            ),
        ],
        elapsed_ms: 15,
        parent: String::from("magnet.exe"),
    };
    let line = encode_guessing_telemetry(&t);
    let v: serde_json::Value = serde_json::from_str(&line).unwrap();
    assert_eq!(v["accounts"].as_array().unwrap().len(), 2);
    assert_eq!(v["attempts"][0]["account"], "bob");
    assert_eq!(v["attempts"][0]["win_error"], 1326);
    assert_eq!(v["attempts"][0]["success"], false);
}

#[test]
fn guessing_failure_records_and_surfaces_the_enum_error() {
    let module = PwdGuessingSim::default();
    let mut ledger = Ledger::new();
    let r = module.record_failed(
        &cfg(false),
        &mut ledger,
        String::from("ts"),
        String::from("net refused"),
    );
    assert_eq!(r, Err(ActionError::EffectFailed(String::from("net refused"))));
    assert_eq!(ledger.record_at(0).status, Status::Failed);
    assert_eq!(ledger.record_at(0).details, "admin enum error: net refused");
}

#[test]
fn guessing_pass_reports_its_counts() {
    let module = PwdGuessingSim::default();
    let mut ledger = Ledger::new();
    assert!(module
        .record_written(&cfg(false), &mut ledger, String::from("ts"), 22, 2)
        .is_ok());
    assert_eq!(
        ledger.record_at(0).details,
        "attempted 22 guesses across 2 accounts"
    );
    assert_eq!(PwdGuessingSim::test_passwords().len(), 11);
}

#[test]
fn rdp_outcome_maps_step_results_to_status_and_error() {
    let module = EnableRdpSimulation::default();
    let mut ledger = Ledger::new();

    // Every step held: completed, no error.
    let r = module.record_outcome(&cfg(false), &mut ledger, String::from("ts"), true, true, true);
    assert!(r.is_ok());
    assert_eq!(ledger.record_at(0).status, Status::Completed);
    assert_eq!(
        ledger.record_at(0).details,
        "registry=true, firewall=true, verify=true"
    );

    // Verification failed: partial record, typed error.
    let r = module.record_outcome(&cfg(false), &mut ledger, String::from("ts"), true, false, false);
    assert_eq!(r, Err(ActionError::VerificationFailed));
    assert_eq!(ledger.record_at(1).status, Status::Partial);
    assert_eq!(
        ledger.record_at(1).details,
        "registry=true, firewall=false, verify=false"
    );

    // A failed earlier step with a live listener: partial, but still a success.
    let r = module.record_outcome(&cfg(false), &mut ledger, String::from("ts"), false, true, true);
    assert!(r.is_ok());
    assert_eq!(ledger.record_at(2).status, Status::Partial);
}

#[test]
fn ransom_note_plans_path_and_content() {
    assert_eq!(
        RansomNote::note_path("C:\\Users\\x\\Desktop"),
        "C:\\Users\\x\\Desktop\\RANSOM_NOTE.txt"
    );
    let content = RansomNote::build_note_content("t-77", "2026-01-02T03:04:05+00:00");
    assert!(content.contains("MAGNET-TEST-ID: t-77"));
    assert!(content.contains("TIMESTAMP: 2026-01-02T03:04:05+00:00"));
    assert!(content.starts_with("=== MAGNET RANSOM-NOTE SIMULATION ==="));
    assert!(content.ends_with("=== END OF NOTE ==="));
}

#[test]
fn ransom_note_outcomes_are_recorded_exactly() {
    let module = RansomNote::default();
    let mut ledger = Ledger::new();
    let path = String::from("C:\\Users\\x\\Desktop\\RANSOM_NOTE.txt");

    assert!(module
        .record_written(&cfg(false), &mut ledger, String::from("ts"), path.clone())
        .is_ok());
    assert_eq!(ledger.record_at(0).status, Status::Written);
    assert_eq!(ledger.record_at(0).artifact_path.as_deref(), Some(path.as_str()));

    let r = module.record_failed(
        &cfg(false),
        &mut ledger,
        String::from("ts"),
        path.clone(),
        String::from("open error: denied"),
    );
    assert_eq!(
        r,
        Err(ActionError::EffectFailed(String::from("open error: denied")))
    );
    assert_eq!(ledger.record_at(1).status, Status::Failed);

    let r = module.record_path_unresolved(&cfg(false), &mut ledger, String::from("ts"));
    assert_eq!(r, Err(ActionError::PathUnresolved));
    assert_eq!(ledger.record_at(2).details, "could not determine Desktop path");
}

#[test]
fn registry_module_plans_its_artifacts() {
    let c = cfg(false);
    assert_eq!(RegistryPersistenceSim::run_key_name(&c), "MagnetRunKey_t-77");
    assert_eq!(
        RegistryPersistenceSim::registry_path(&c),
        "HKCU\\Software\\Microsoft\\Windows\\CurrentVersion\\Run\\MagnetRunKey_t-77"
    );
    assert_eq!(
        RegistryPersistenceSim::cmd_drop_path("C:\\Temp", &c),
        "C:\\Temp\\magnet_runkey_t-77.cmd"
    );
    assert_eq!(
        RegistryPersistenceSim::artifact_path("C:\\Temp", &c),
        "C:\\Temp\\magnet_runkey_artifact_t-77.txt"
    );
    assert_eq!(
        RegistryPersistenceSim::cmd_drop_content("C:\\Temp\\a.txt"),
        "@echo off\r\necho MAGNET RUNKEY TEST > \"C:\\Temp\\a.txt\"\r\n"
    );
}

#[test]
fn startup_module_plans_script_and_reports() {
    let c = cfg(false);
    assert_eq!(StartupExecSim::script_name(&c), "magnet_startup_t-77.cmd");
    assert_eq!(
        StartupExecSim::startup_folder("C:\\Users\\x\\AppData\\Roaming"),
        "C:\\Users\\x\\AppData\\Roaming\\Microsoft\\Windows\\Start Menu\\Programs\\Startup"
    );
    let content = StartupExecSim::script_content("C:\\log.txt", "t-77", "ts");
    assert!(content.starts_with("@echo off\r\n"));
    assert!(content.contains("echo TEST-ID: t-77 >> \"C:\\log.txt\""));
    assert!(content.ends_with("exit /b 0\r\n"));

    let module = StartupExecSim::default();
    let mut ledger = Ledger::new();
    assert!(module
        .record_written(
            &c,
            &mut ledger,
            String::from("ts"),
            String::from("C:\\startup\\magnet_startup_t-77.cmd"),
        )
        .is_ok());
    assert_eq!(
        ledger.record_at(0).details,
        "startup script: C:\\startup\\magnet_startup_t-77.cmd"
    );
}

#[test]
fn create_proc_outcomes_are_recorded_exactly() {
    assert_eq!(
        CreateProcSim::output_path("C:\\out"),
        "C:\\out\\nt_create_proc_sim.log"
    );
    let module = CreateProcSim::default();
    let mut ledger = Ledger::new();
    assert!(module
        .record_written(
            &cfg(false),
            &mut ledger,
            String::from("ts"),
            String::from("C:\\out\\nt_create_proc_sim.log"),
            1004,
        )
        .is_ok());
    assert_eq!(
        ledger.record_at(0).details,
        "Process created and handle closed after 1 (1004ms)"
    );
    let r = module.record_failed(
        &cfg(false),
        &mut ledger,
        String::from("ts"),
        String::from("C:\\out\\nt_create_proc_sim.log"),
        String::from("spawn refused"),
    );
    assert_eq!(r, Err(ActionError::EffectFailed(String::from("spawn refused"))));
    assert_eq!(ledger.record_at(1).details, "error: spawn refused");
}

#[test]
fn pipe_stages_expand_per_outcome() {
    let recs = NamedPipeSimulation::pipe_stage_records("ts", "\\\\.\\pipe\\svcctl", false, false);
    assert_eq!(recs.len(), 1);
    assert_eq!(recs[0].stage, "create_pipe");
    assert!(!recs[0].success);

    let recs = NamedPipeSimulation::pipe_stage_records("ts", "\\\\.\\pipe\\svcctl", true, false);
    assert_eq!(recs.len(), 3);
    assert_eq!(recs[1].stage, "server_ready");
    assert!(recs[1].success);
    assert_eq!(recs[2].stage, "client_connect");
    assert!(!recs[2].success);

    let (ok, bad) = NamedPipeSimulation::summarize_records(&recs);
    assert_eq!((ok, bad), (2, 1));
    assert_eq!(NamedPipeSimulation::pipe_names().len(), 7);
}

#[test]
fn pipe_pass_records_its_counts() {
    let module = NamedPipeSimulation::default();
    let mut ledger = Ledger::new();
    assert!(module
        .record_completed(&cfg(false), &mut ledger, String::from("ts"), 19, 2)
        .is_ok());
    assert_eq!(ledger.record_at(0).details, "19 ok, 2 failed pipe operations");
}

#[test]
fn time_attempts_and_outcome_follow_the_host_answers() {
    let offsets = TimeManipulationSimulation::offsets();
    assert_eq!(offsets, vec![-300, 300, -900, 1800]);

    let a = TimeManipulationSimulation::attempt_record(String::from("ts"), -300, true);
    assert_eq!(a.result, "success");
    let b = TimeManipulationSimulation::attempt_record(String::from("ts"), 1800, false);
    assert_eq!(b.result, "blocked");
    let line = encode_time_attempt(&a);
    let v: serde_json::Value = serde_json::from_str(&line).unwrap();
    assert_eq!(v["attempted_offset_seconds"], -300);

    assert!(TimeManipulationSimulation::should_restore(2));
    assert!(!TimeManipulationSimulation::should_restore(0));

    let module = TimeManipulationSimulation::default();
    let mut ledger = Ledger::new();
    assert!(module
        .record_outcome(&cfg(false), &mut ledger, String::from("ts"), 4, 0, false)
        .is_ok());
    assert_eq!(ledger.record_at(0).status, Status::Blocked);
    assert_eq!(
        ledger.record_at(0).details,
        "4 attempts, 0 succeeded, restored=false"
    );
    assert!(module
        .record_outcome(&cfg(false), &mut ledger, String::from("ts"), 4, 2, true)
        .is_ok());
    assert_eq!(ledger.record_at(1).status, Status::Completed);
}

#[test]
fn minidump_module_plans_paths_and_details() {
    assert_eq!(MinidumpProc::dump_dir("C:\\out"), "C:\\out\\minidumps");
    assert_eq!(MinidumpProc::sanitize_name("a\\b/c.exe"), "a_b_c.exe");
    assert_eq!(
        MinidumpProc::dump_path("C:\\out\\minidumps", "lsass.exe", 624),
        "C:\\out\\minidumps\\lsass.exe-624.dmp"
    );
    assert_eq!(MinidumpProc::dump_details(&Vec::new()), "no dumps written");
    assert_eq!(
        MinidumpProc::dump_details(&vec![String::from("a.dmp"), String::from("b.dmp")]),
        "dumps: a.dmp, b.dmp"
    );
    assert_eq!(MinidumpProc::target_processes().len(), 9);
}

#[test]
fn clipboard_records_the_captured_size() {
    let module = ClipboardSimulation::default();
    let mut ledger = Ledger::new();
    assert!(module
        .record_completed(&cfg(false), &mut ledger, String::from("ts"), "hello")
        .is_ok());
    assert_eq!(
        ledger.record_at(0).details,
        "Collected clipboard content (5 chars)."
    );
}

#[test]
fn env_vars_module_builds_records_and_counts() {
    let vars = vec![
        (String::from("PATH"), String::from("C:\\Windows")),
        (String::from("USERNAME"), String::from("tester")),
    ];
    let records = EnvVarsSimulation::env_records("ts", vars);
    assert_eq!(records.len(), 2);
    assert_eq!(records[0].key, "PATH");
    assert_eq!(records[1].value, "tester");
    assert_eq!(EnvVarsSimulation::var_log_line(&records[0]), "PATH=C:\\Windows");

    let module = EnvVarsSimulation::default();
    let mut ledger = Ledger::new();
    assert!(module
        .record_completed(&cfg(false), &mut ledger, String::from("ts"), 2)
        .is_ok());
    assert_eq!(ledger.record_at(0).details, "Collected 2 environment variables.");
}

#[test]
fn ssh_module_reports_port_status() {
    assert_eq!(EnableSshSimulation::ssh_commands().len(), 4);
    assert_eq!(EnableSshSimulation::port_status(true, ""), "reachable");
    assert_eq!(
        EnableSshSimulation::port_status(false, "refused"),
        "unreachable: refused"
    );
    let t = EnableSshTelemetry {
        test_id: String::from("t-77"),
        timestamp: String::from("ts"),
        ssh_status: String::from("reachable"),
        commands_run: EnableSshSimulation::ssh_commands(),
        port_check: String::from("reachable"),
        elapsed_ms: 9,
        parent: String::from("magnet.exe"),
    };
    let line = encode_ssh_telemetry(&t);
    let v: serde_json::Value = serde_json::from_str(&line).unwrap();
    assert_eq!(v["commands_run"].as_array().unwrap().len(), 4);
    assert_eq!(v["port_check"], "reachable");

    let module = EnableSshSimulation::default();
    let mut ledger = Ledger::new();
    assert!(module
        .record_written(&cfg(false), &mut ledger, String::from("ts"), "reachable")
        .is_ok());
    assert_eq!(ledger.record_at(0).details, "SSH status: reachable");
}

#[test]
fn share_enum_combines_command_outputs() {
    let d = magnet::actions::share_enum::ShareEnumSimulation::combine_details(
        "v",
        "s",
        "g",
        "w",
    );
    assert_eq!(d, "net_view:\nv\n\nnet_share:\ns\n\nGet-SmbShare:\ng\n\nWMI:\nw\n");
    let module = magnet::actions::share_enum::ShareEnumSimulation::default();
    let mut ledger = Ledger::new();
    assert!(module
        .record_completed(&cfg(false), &mut ledger, String::from("ts"), d)
        .is_ok());
    assert_eq!(ledger.record_at(0).status, Status::Completed);
}

#[test]
fn registry_telemetry_encodes_exactly() {
    let t = RegistryPersistenceTelemetry {
        test_id: String::from("t-77"),
        timestamp: String::from("ts"),
        registry_path: String::from("HKCU\\Run\\MagnetRunKey_t-77"),
        cmd_drop_path: String::from("C:\\Temp\\magnet_runkey_t-77.cmd"),
        artifact_path: String::from("C:\\Temp\\magnet_runkey_artifact_t-77.txt"),
        value_verified: true,
        elapsed_ms: 31,
        parent: String::from("magnet.exe"),
    };
    let line = encode_registry_telemetry(&t);
    let v: serde_json::Value = serde_json::from_str(&line).unwrap();
    assert_eq!(v["value_verified"], true);
    assert_eq!(v["elapsed_ms"], 31);
    assert_eq!(v["registry_path"], "HKCU\\Run\\MagnetRunKey_t-77");
}

#[test]
fn per_item_records_encode_exactly() {
    let c = ClipboardSimulation::capture_record(String::from("ts"), String::from("copied"));
    assert_eq!(
        encode_clipboard_record(&c),
        "{\"timestamp\":\"ts\",\"content\":\"copied\"}"
    );
    let e = EnvVarRecord {
        timestamp: String::from("ts"),
        key: String::from("PATH"),
        value: String::from("C:\\Windows"),
    };
    assert_eq!(
        encode_env_var_record(&e),
        "{\"timestamp\":\"ts\",\"key\":\"PATH\",\"value\":\"C:\\\\Windows\"}"
    );
}

#[test]
fn every_module_dry_run_records_a_single_skip() {
    let c = cfg(true);
    let mut ledger = Ledger::new();
    assert!(RansomNote::default()
        .record_dry_run(&c, &mut ledger, String::from("ts"), String::from("p"))
        .is_ok());
    assert!(EnableRdpSimulation::default()
        .record_dry_run(&c, &mut ledger, String::from("ts"))
        .is_ok());
    assert!(RegistryPersistenceSim::default()
        .record_dry_run(&c, &mut ledger, String::from("ts"))
        .is_ok());
    assert!(StartupExecSim::default()
        .record_dry_run(&c, &mut ledger, String::from("ts"))
        .is_ok());
    assert!(MinidumpProc::default()
        .record_dry_run(&c, &mut ledger, String::from("ts"))
        .is_ok());
    assert_eq!(ledger.len(), 5);
    for i in 0..ledger.len() {
        assert_eq!(ledger.record_at(i).status, Status::DryRun);
    }
}
