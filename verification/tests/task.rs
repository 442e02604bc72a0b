use zed_zig::platform::Os;
use zed_zig::resolve::ZigExtension;
use zed_zig::task::{
    build_template, classify, get_project_name, get_test_exe_path, launch_target,
    needs_current_dir_for_launch, needs_current_dir_for_scenario, BuildTaskDefinition,
    BuildTaskDefinitionTemplatePayload, BuildTaskIntent, DebugRequest, DebugScenario,
    LaunchRequest, LaunchTarget, LocatorError, TaskTemplate,
};

fn t(s: &str) -> String {
    String::from(s)
}

fn words(ws: &[&str]) -> Vec<String> {
    ws.iter().map(|w| t(w)).collect()
}

fn env() -> Vec<(String, String)> {
    vec![(t("ZIG_DEBUG"), t("1")), (t("A"), t("b"))]
}

fn task(command: &str, args: &[&str], cwd: Option<&str>) -> TaskTemplate {
    TaskTemplate {
        label: t("run it"),
        command: t(command),
        args: words(args),
        env: env(),
        cwd: cwd.map(t),
    }
}

fn scenario(task: TaskTemplate, os: Os, current_dir: Option<&str>) -> Option<DebugScenario> {
    ZigExtension::new().dap_locator_create_scenario(
        t("zig-locator"),
        task,
        t("Debug my task"),
        t("CodeLLDB"),
        os,
        current_dir.map(t),
    )
}

fn template_of(scenario: DebugScenario) -> TaskTemplate {
    match scenario.build {
        Some(BuildTaskDefinition::Template(BuildTaskDefinitionTemplatePayload {
            locator_name,
            template,
        })) => {
            assert_eq!(locator_name, Some(t("zig-locator")));
            template
        }
        other => panic!("no template: {:?}", other),
    }
}

#[test]
fn build_run_becomes_a_plain_build() {
    let made = scenario(task("zig", &["build", "run"], Some("/home/u/myproj")), Os::Linux, None)
        .unwrap();
    assert_eq!(
        made,
        DebugScenario {
            label: t("Debug my task"),
            adapter: t("CodeLLDB"),
            build: Some(BuildTaskDefinition::Template(BuildTaskDefinitionTemplatePayload {
                locator_name: Some(t("zig-locator")),
                template: TaskTemplate {
                    label: t("zig build"),
                    command: t("zig"),
                    args: words(&["build"]),
                    env: env(),
                    cwd: Some(t("/home/u/myproj")),
                },
            })),
            config: t("null"),
            tcp_connection: None,
        }
    );
}

#[test]
fn build_run_drops_further_arguments() {
    let made = scenario(task("zig", &["build", "run", "--", "-x"], None), Os::Windows, None);
    let template = template_of(made.unwrap());
    assert_eq!(template.args, words(&["build"]));
    assert_eq!(template.cwd, None);
    assert_eq!(template.env, env());
}

#[test]
fn test_task_is_compiled_but_not_run() {
    let made = scenario(
        task("zig", &["test", "foo.zig"], Some("/home/u/myproj")),
        Os::Linux,
        Some("/work/ext"),
    )
    .unwrap();
    assert_eq!(made.config, "null");
    assert_eq!(made.label, "Debug my task");
    assert_eq!(made.adapter, "CodeLLDB");
    assert_eq!(made.tcp_connection, None);
    assert_eq!(
        template_of(made),
        TaskTemplate {
            label: t("zig test --test-no-exec"),
            command: t("zig"),
            args: words(&["test", "foo.zig", "--test-no-exec", "-femit-bin=/work/ext/zig_test"]),
            env: env(),
            cwd: Some(t("/home/u/myproj")),
        }
    );
}

#[test]
fn test_task_on_mac_with_only_the_test_word() {
    let made = scenario(task("zig", &["test"], None), Os::Mac, Some("/work/ext/")).unwrap();
    assert_eq!(
        template_of(made).args,
        words(&["test", "--test-no-exec", "-femit-bin=/work/ext/zig_test"])
    );
}

#[test]
fn test_task_on_windows_quotes_its_arguments() {
    let made = scenario(
        task("zig", &["test", "src/my file.zig", "-O", "Debug"], Some("C:\\proj")),
        Os::Windows,
        Some("C:/work/ext"),
    )
    .unwrap();
    assert_eq!(
        template_of(made),
        TaskTemplate {
            label: t("zig test --test-no-exec"),
            command: t("zig"),
            args: words(&[
                "test",
                "'src/my file.zig'",
                "'-O'",
                "'Debug'",
                "--test-no-exec",
                "-femit-bin='C:/work/ext/zig_test.exe'",
            ]),
            env: env(),
            cwd: Some(t("C:\\proj")),
        }
    );
    let bare = scenario(task("zig", &["test"], None), Os::Windows, Some("C:/w")).unwrap();
    assert_eq!(
        template_of(bare).args,
        words(&["test", "--test-no-exec", "-femit-bin='C:/w/zig_test.exe'"])
    );
}

#[test]
fn tasks_that_are_not_understood_give_no_scenario() {
    assert_eq!(scenario(task("zig", &["fmt"], None), Os::Linux, Some("/w")), None);
    assert_eq!(scenario(task("zig", &[], None), Os::Linux, Some("/w")), None);
    assert_eq!(scenario(task("zig", &["build"], None), Os::Linux, Some("/w")), None);
    assert_eq!(scenario(task("zig", &["build", "test"], None), Os::Linux, Some("/w")), None);
    assert_eq!(scenario(task("zig", &["run", "build"], None), Os::Linux, Some("/w")), None);
    assert_eq!(scenario(task("zig", &["Build", "run"], None), Os::Linux, Some("/w")), None);
    assert_eq!(scenario(task("zig", &["tests"], None), Os::Linux, Some("/w")), None);
}

#[test]
fn tasks_of_another_command_give_no_scenario() {
    assert_eq!(scenario(task("cargo", &["build", "run"], None), Os::Linux, None), None);
    assert_eq!(scenario(task("cargo", &["test"], None), Os::Linux, None), None);
    assert_eq!(scenario(task("zig ", &["build", "run"], None), Os::Linux, None), None);
    assert_eq!(scenario(task("", &["test"], None), Os::Windows, None), None);
}

#[test]
fn intent_of_arguments() {
    assert_eq!(classify(&words(&["build", "run"])), BuildTaskIntent::BuildRun);
    assert_eq!(classify(&words(&["build", "run", "x"])), BuildTaskIntent::BuildRun);
    assert_eq!(classify(&words(&["build"])), BuildTaskIntent::Unsupported);
    assert_eq!(classify(&words(&["build", "install"])), BuildTaskIntent::Unsupported);
    assert_eq!(classify(&words(&["test"])), BuildTaskIntent::TestNoExec);
    assert_eq!(classify(&words(&["test", "run"])), BuildTaskIntent::TestNoExec);
    assert_eq!(classify(&words(&["fmt"])), BuildTaskIntent::Unsupported);
    assert_eq!(classify(&words(&[])), BuildTaskIntent::Unsupported);
    assert_eq!(launch_target(&words(&["build"])), LaunchTarget::ProjectBinary);
    assert_eq!(launch_target(&words(&["build", "install"])), LaunchTarget::ProjectBinary);
    assert_eq!(launch_target(&words(&["test", "a.zig"])), LaunchTarget::TestBinary);
    assert_eq!(launch_target(&words(&["run"])), LaunchTarget::Unsupported);
    assert_eq!(launch_target(&words(&[])), LaunchTarget::Unsupported);
}

#[test]
fn current_dir_is_needed_for_tests_only() {
    assert!(needs_current_dir_for_scenario(&task("zig", &["test", "a.zig"], None)));
    assert!(!needs_current_dir_for_scenario(&task("zig", &["build", "run"], None)));
    assert!(!needs_current_dir_for_scenario(&task("zig", &["fmt"], None)));
    assert!(!needs_current_dir_for_scenario(&task("cargo", &["test"], None)));
    assert!(needs_current_dir_for_launch(&task("cargo", &["test"], None)));
    assert!(!needs_current_dir_for_launch(&task("zig", &["build"], None)));
    assert!(!needs_current_dir_for_launch(&task("zig", &[], None)));
}

#[test]
fn build_template_for_each_intent() {
    assert_eq!(build_template(task("any", &["fmt"], None), Os::Linux, None), None);
    assert_eq!(
        build_template(task("any", &["build", "run"], Some("/p")), Os::Linux, None),
        Some(TaskTemplate {
            label: t("zig build"),
            command: t("zig"),
            args: words(&["build"]),
            env: env(),
            cwd: Some(t("/p")),
        })
    );
    assert_eq!(
        build_template(task("any", &["test", "-Doptimize=Debug"], None), Os::Mac, Some(t(""))),
        Some(TaskTemplate {
            label: t("zig test --test-no-exec"),
            command: t("zig"),
            args: words(&["test", "-Doptimize=Debug", "--test-no-exec", "-femit-bin=zig_test"]),
            env: env(),
            cwd: None,
        })
    );
}

#[test]
fn test_exe_path_lies_in_the_current_directory() {
    assert_eq!(get_test_exe_path(Some("/work/ext")), Some(t("/work/ext/zig_test")));
    assert_eq!(get_test_exe_path(Some("/")), Some(t("/zig_test")));
    assert_eq!(get_test_exe_path(Some("")), Some(t("zig_test")));
    assert_eq!(get_test_exe_path(None), None);
}

#[test]
fn project_name_is_the_last_segment_of_the_working_directory() {
    assert_eq!(
        get_project_name(&task("zig", &["build"], Some("/home/u/myproj")), Os::Linux),
        Some(t("myproj"))
    );
    assert_eq!(
        get_project_name(&task("zig", &["build"], Some("C:\\Users\\u\\myproj")), Os::Windows),
        Some(t("myproj"))
    );
    assert_eq!(get_project_name(&task("zig", &["build"], None), Os::Linux), None);
    assert_eq!(get_project_name(&task("zig", &["build"], Some("/")), Os::Linux), None);
    assert_eq!(get_project_name(&task("zig", &["build"], Some("a/..")), Os::Mac), None);
}

#[test]
fn built_project_is_launched_from_zig_out() {
    let request = ZigExtension::new().run_dap_locator(
        t("zig-locator"),
        task("zig", &["build"], Some("/home/u/myproj")),
        Os::Linux,
        None,
    );
    assert_eq!(
        request,
        Ok(DebugRequest::Launch(LaunchRequest {
            program: t("zig-out/bin/myproj"),
            cwd: Some(t("/home/u/myproj")),
            args: Vec::new(),
            envs: env(),
        }))
    );
    let run = ZigExtension::new().run_dap_locator(
        t("zig-locator"),
        task("zig", &["build", "run"], Some("C:\\code\\demo\\")),
        Os::Windows,
        None,
    );
    assert_eq!(
        run,
        Ok(DebugRequest::Launch(LaunchRequest {
            program: t("zig-out/bin/demo"),
            cwd: Some(t("C:\\code\\demo\\")),
            args: Vec::new(),
            envs: env(),
        }))
    );
}

#[test]
fn compiled_test_is_launched_from_the_current_directory() {
    let request = ZigExtension::new().run_dap_locator(
        t("zig-locator"),
        task("zig", &["test", "foo.zig"], Some("/home/u/myproj")),
        Os::Linux,
        Some(t("/work/ext")),
    );
    assert_eq!(
        request,
        Ok(DebugRequest::Launch(LaunchRequest {
            program: t("/work/ext/zig_test"),
            cwd: Some(t("/home/u/myproj")),
            args: Vec::new(),
            envs: env(),
        }))
    );
    let windows = ZigExtension::new().run_dap_locator(
        t("zig-locator"),
        task("zig", &["test"], None),
        Os::Windows,
        Some(t("C:/work")),
    );
    assert_eq!(
        windows,
        Ok(DebugRequest::Launch(LaunchRequest {
            program: t("C:/work/zig_test"),
            cwd: None,
            args: Vec::new(),
            envs: env(),
        }))
    );
}

#[test]
fn launch_is_refused_for_other_tasks() {
    let extension = ZigExtension::new();
    for args in [&["fmt"][..], &[], &["run"], &["Test"]] {
        assert_eq!(
            extension.run_dap_locator(t("l"), task("zig", args, Some("/p")), Os::Linux, Some(t("/w"))),
            Err(LocatorError::UnsupportedTask)
        );
    }
    assert_eq!(LocatorError::UnsupportedTask.message(), "Unsupported build task");
}

#[test]
fn launch_is_refused_without_a_project_name() {
    let extension = ZigExtension::new();
    for cwd in [None, Some("/"), Some(""), Some("/home/u/.."), Some(".")] {
        assert_eq!(
            extension.run_dap_locator(t("l"), task("zig", &["build"], cwd), Os::Linux, None),
            Err(LocatorError::NoProjectName)
        );
    }
    assert_eq!(LocatorError::NoProjectName.message(), "Failed to get project name");
}
