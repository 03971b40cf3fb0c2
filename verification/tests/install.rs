use rspawn::install::{install_arguments, installer_program, relaunch_command, RelaunchCommand};

fn strings(items: &[&str]) -> Vec<String> {
    items.iter().map(|s| s.to_string()).collect()
}

#[test]
fn package_manager_is_cargo() {
    assert_eq!(installer_program(), "cargo");
}

#[test]
fn install_without_features_names_only_the_package() {
    assert_eq!(install_arguments("prog", &Vec::new()), strings(&["install", "prog"]));
}

#[test]
fn each_feature_gets_its_own_flag() {
    assert_eq!(
        install_arguments("prog", &strings(&["gui"])),
        strings(&["install", "prog", "--features", "gui"])
    );
    assert_eq!(
        install_arguments("my-tool", &strings(&["a", "b", "a"])),
        strings(&["install", "my-tool", "--features", "a", "--features", "b", "--features", "a"])
    );
}

#[test]
fn feature_names_are_passed_unchanged() {
    assert_eq!(
        install_arguments("p", &strings(&["", "x y", "--features"])),
        strings(&["install", "p", "--features", "", "--features", "x y", "--features", "--features"])
    );
}

#[test]
fn relaunch_uses_the_program_and_arguments_of_this_run() {
    assert_eq!(
        relaunch_command(&strings(&["/usr/bin/prog", "--flag", "value", ""])),
        Some(RelaunchCommand {
            program: "/usr/bin/prog".to_string(),
            arguments: strings(&["--flag", "value", ""]),
        })
    );
    assert_eq!(
        relaunch_command(&strings(&["prog"])),
        Some(RelaunchCommand { program: "prog".to_string(), arguments: Vec::new() })
    );
}

#[test]
fn nothing_can_be_relaunched_without_a_program() {
    assert_eq!(relaunch_command(&Vec::new()), None);
}
