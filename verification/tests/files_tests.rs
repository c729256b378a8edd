use pipelines::files::open_directory_command;
use pipelines::platform::Platform;
use pipelines::process::ProcessRequest;

#[test]
fn linux_opens_a_directory_with_xdg_open() {
    assert_eq!(
        open_directory_command(Platform::Linux, &"/home/user/data".to_string()),
        Some(ProcessRequest {
            program: "xdg-open".to_string(),
            arguments: vec!["/home/user/data".to_string()],
        })
    );
}

#[test]
fn windows_starts_the_explorer_through_the_command_interpreter() {
    assert_eq!(
        open_directory_command(Platform::Windows, &"C:\\Users\\user".to_string()),
        Some(ProcessRequest {
            program: "cmd".to_string(),
            arguments: vec![
                "/C".to_string(),
                "start".to_string(),
                "explorer".to_string(),
                "C:\\Users\\user".to_string(),
            ],
        })
    );
}

#[test]
fn other_platforms_have_no_file_manager_command() {
    assert_eq!(open_directory_command(Platform::MacOs, &"/tmp".to_string()), None);
    assert_eq!(open_directory_command(Platform::Other, &"/tmp".to_string()), None);
}
