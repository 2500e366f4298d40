use bones::env::EnvVars;
use bones::launcher::app_command;
use bones::launcher::build_flatpak_args;
use bones::launcher::child_env;
use bones::launcher::ensure_profile_config;
use bones::launcher::flatpak_app_id;
use bones::launcher::flatpak_app_pos;
use bones::launcher::flatpak_trailing;
use bones::launcher::flatpak_user_flags;
use bones::launcher::is_flatpak_bin;
use bones::launcher::is_flatpak_run;
use bones::launcher::join_env;
use bones::launcher::join_pair;
use bones::launcher::parse_meta_command;
use bones::launcher::plan_launcher;
use bones::launcher::prepend_env;
use bones::launcher::resolved_libs;
use bones::launcher::split_args;
use bones::launcher::val_in_list;
use bones::launcher::wants_help;
use bones::launcher::LaunchPlan;
use bones::launcher::LibLayout;
use bones::launcher::PathFacts;

fn strings(v: &[&str]) -> Vec<String> {
    v.iter().map(|s| s.to_string()).collect()
}

fn env_of(pairs: &[(&str, &str)]) -> EnvVars {
    EnvVars { vars: pairs.iter().map(|(k, v)| (k.to_string(), v.to_string())).collect() }
}

fn facts(path: &str, exists: bool, canonical: Option<&str>) -> PathFacts {
    PathFacts { path: path.to_string(), exists, canonical: canonical.map(|c| c.to_string()) }
}

fn layout() -> LibLayout {
    LibLayout {
        lib_64: (facts("/usr/lib64/libbones.so", true, Some("/usr/lib64/libbones.so")), facts("dev64", false, None)),
        lib_32: (facts("/usr/lib32/libbones.so", false, None), facts("dev32", true, None)),
        dir_64: (facts("/usr/share/vulkan/implicit_layer.d", false, None), facts("devdir", false, None)),
        dir_32: (facts("/x", false, None), facts("/y", false, None)),
    }
}

#[test]
fn help_and_argument_split() {
    assert!(wants_help(&strings(&["--help"])));
    assert!(wants_help(&strings(&["retro", "-h", "--", "game"])));
    assert!(!wants_help(&strings(&["--", "game", "--help"])));
    assert_eq!(split_args(&strings(&["retro", "--", "game", "--x"])), (strings(&["retro"]), strings(&["game", "--x"])));
    assert_eq!(split_args(&strings(&["game"])), (strings(&["game"]), vec![]));
    assert_eq!(split_args(&strings(&["--"])), (vec![], vec![]));
}

#[test]
fn flatpak_command_parsing() {
    assert!(is_flatpak_bin("flatpak"));
    assert!(is_flatpak_bin("/usr/bin/flatpak"));
    assert!(!is_flatpak_bin("flatpak2"));
    let cmd = strings(&["flatpak", "run", "--branch=stable", "-v", "com.example.Game", "--fullscreen", "x"]);
    assert!(is_flatpak_run(&cmd));
    assert_eq!(flatpak_user_flags(&cmd), strings(&["--branch=stable", "-v"]));
    assert_eq!(flatpak_app_pos(&cmd), Some(4));
    assert_eq!(flatpak_app_id(&cmd), Some("com.example.Game".to_string()));
    assert_eq!(flatpak_trailing(&cmd), strings(&["--fullscreen", "x"]));
    let no_app = strings(&["flatpak", "run", "--verbose"]);
    assert!(is_flatpak_run(&no_app));
    assert_eq!(flatpak_app_id(&no_app), None);
    assert!(flatpak_trailing(&no_app).is_empty());
    assert!(!is_flatpak_run(&strings(&["flatpak", "install", "x"])));
    assert!(!is_flatpak_run(&strings(&["/games/run", "run"])));
}

#[test]
fn flatpak_metadata_and_arguments() {
    let meta = "[Application]\nname=com.example.Game\nruntime=org.freedesktop.Platform/x86_64/24.08\ncommand= game-bin \n";
    assert_eq!(parse_meta_command(meta), Some("game-bin".to_string()));
    assert_eq!(parse_meta_command("[Application]\nname=x\n"), None);
    assert_eq!(app_command("com.example.Game", Some(meta)), "game-bin");
    assert_eq!(app_command("com.example.Game", None), "com.example.Game");
    assert_eq!(
        build_flatpak_args("retro", "com.example.Game", "game-bin", &strings(&["--branch=stable"]), &strings(&["-x"])),
        strings(&[
            "run",
            "--command=/usr/lib/extensions/vulkan/bones/bin/bones-flatpak",
            "--env=BONES_CONFIG_NAME=retro",
            "--branch=stable",
            "com.example.Game",
            "game-bin",
            "-x",
        ])
    );
}

#[test]
fn list_variables() {
    assert!(val_in_list("a:b", "b", ':'));
    assert_eq!(join_env("/l", "/a:/b", ':'), "/l:/a:/b");
    assert_eq!(join_env("/a", "/a:/b", ':'), "/a:/b");
    let once = join_env("/l", "/a:/b", ':');
    assert_eq!(join_env("/l", &once, ':'), once);
    assert_eq!(prepend_env("/l", None, ':'), "/l");
    assert_eq!(prepend_env("/l", Some(String::new()), ':'), "/l");
    assert_eq!(prepend_env("/l", Some("/x".to_string()), ':'), "/l:/x");
    assert_eq!(join_pair(Some("a".into()), Some("b".into()), ':'), Some("a:b".to_string()));
    assert_eq!(join_pair(None, Some("b".into()), ':'), Some("b".to_string()));
    assert_eq!(join_pair(None, None, ':'), None);
}

#[test]
fn layer_files_and_child_environment() {
    let l = layout();
    assert_eq!(resolved_libs(&l), "/usr/lib64/libbones.so:dev32");
    let env = env_of(&[("LD_PRELOAD", "/other.so"), ("VK_INSTANCE_LAYERS", "VK_LAYER_BONES_overlay")]);
    let e = child_env("retro", "/l.so", "/dir", &env);
    assert_eq!(
        e,
        vec![
            ("BONES_CONFIG_NAME".to_string(), "retro".to_string()),
            ("BONES_ENABLE".to_string(), "1".to_string()),
            ("LD_PRELOAD".to_string(), "/l.so:/other.so".to_string()),
            ("VK_ADD_LAYER_PATH".to_string(), "/dir".to_string()),
            ("VK_INSTANCE_LAYERS".to_string(), "VK_LAYER_BONES_overlay".to_string()),
        ]
    );
}

#[test]
fn launcher_plans() {
    let l = layout();
    let env = env_of(&[("HOME", "/h")]);
    assert!(matches!(plan_launcher(&strings(&["-h"]), &l, &env), LaunchPlan::Help));
    assert!(matches!(plan_launcher(&strings(&["retro"]), &l, &env), LaunchPlan::Usage));
    assert!(matches!(plan_launcher(&strings(&["retro", "--"]), &l, &env), LaunchPlan::Usage));
    match plan_launcher(&strings(&["bad name", "--", "/games/g", "-x"]), &l, &env) {
        LaunchPlan::Native { profile, argv, env: e } => {
            assert_eq!(profile, "bones");
            assert_eq!(argv, strings(&["/games/g", "-x"]));
            assert_eq!(e[0], ("BONES_CONFIG_NAME".to_string(), "bones".to_string()));
            assert_eq!(e[3].1, "/usr/share/vulkan/implicit_layer.d");
        },
        _ => panic!("expected a native launch"),
    }
    match plan_launcher(&strings(&["retro", "--", "flatpak", "run", "com.example.Game"]), &l, &env) {
        LaunchPlan::Flatpak { profile, app_id, flags, trailing } => {
            assert_eq!(profile, "retro");
            assert_eq!(app_id, "com.example.Game");
            assert!(flags.is_empty() && trailing.is_empty());
        },
        _ => panic!("expected a flatpak launch"),
    }
    match plan_launcher(&strings(&["--", "flatpak", "run"]), &l, &env) {
        LaunchPlan::FlatpakNoApp { profile } => assert_eq!(profile, "bones"),
        _ => panic!("expected the missing application error"),
    }
    assert_eq!(ensure_profile_config(&env, "retro"), Some("/h/.config/bones/retro-config.toml".to_string()));
    assert_eq!(ensure_profile_config(&env_of(&[("BONES_COMPUTE", "1")]), "retro"), None);
}
