use cdp_telemetry::adb::{
    ensure_success, forward_port, forward_port_args, get_package_name, get_package_name_args,
    list_devices, list_devices_args, list_webviews, list_webviews_args, parse_devices,
    parse_package_name, parse_webviews, remove_all_forwards, remove_all_forwards_args,
    remove_forward, remove_forward_args, AdbError, CommandOutput, Device, WebView,
};

fn printed(stdout: &str) -> CommandOutput {
    CommandOutput { success: true, stdout: stdout.as_bytes().to_vec(), stderr: Vec::new() }
}

fn failed(stderr: &str) -> CommandOutput {
    CommandOutput {
        success: false,
        stdout: b"ignored".to_vec(),
        stderr: stderr.as_bytes().to_vec(),
    }
}

#[test]
fn the_device_list_is_read_line_by_line() {
    let output = printed(
        "List of devices attached\n\
         emulator-5554          device product:sdk_gphone model:Pixel_7 device:emu64 transport_id:1\n\
         \n\
         R58M123  unauthorized usb:1-1\r\n\
         lonely\n\
         0123456789ABCDEF offline model:model:Nexus\n",
    );
    assert_eq!(
        list_devices(&output),
        Ok(vec![
            Device {
                id: "emulator-5554".to_string(),
                name: "Pixel_7".to_string(),
                status: "device".to_string(),
            },
            Device {
                id: "R58M123".to_string(),
                name: "R58M123".to_string(),
                status: "unauthorized".to_string(),
            },
            Device {
                id: "0123456789ABCDEF".to_string(),
                name: "Nexus".to_string(),
                status: "offline".to_string(),
            },
        ])
    );
}

#[test]
fn the_heading_of_the_device_list_is_skipped() {
    assert_eq!(list_devices(&printed("serial device\n")), Ok(vec![]));
    assert_eq!(list_devices(&printed("")), Ok(vec![]));
    assert_eq!(
        list_devices(&printed("heading\nabc device")),
        Ok(vec![Device {
            id: "abc".to_string(),
            name: "abc".to_string(),
            status: "device".to_string()
        }])
    );
}

#[test]
fn a_failed_command_reports_what_it_printed() {
    let error = AdbError::CommandFailed("no devices".to_string());
    assert_eq!(list_devices(&failed("no devices")), Err(error.clone()));
    assert_eq!(list_webviews(&failed("no devices")), Err(error.clone()));
    assert_eq!(forward_port(&failed("no devices")), Err(error.clone()));
    assert_eq!(remove_forward(&failed("no devices")), Err(error.clone()));
    assert_eq!(remove_all_forwards(&failed("no devices")), Err(error.clone()));
    assert_eq!(ensure_success(&failed("no devices")), Err(error.clone()));
    assert_eq!(error.message(), "ADB command failed with output: no devices");
    assert_eq!(
        AdbError::ExecutionFailed("not found".to_string()).message(),
        "Failed to execute ADB command: not found"
    );
    assert_eq!(forward_port(&printed("")), Ok(()));
    assert_eq!(remove_forward(&printed("")), Ok(()));
    assert_eq!(remove_all_forwards(&printed("")), Ok(()));
}

#[test]
fn devtools_sockets_are_found_once_for_each_process() {
    let output = printed(
        "Num       RefCount Protocol Flags    Type St Inode Path\n\
         0000000000000000: 00000002 00000000 00010000 0001 01 12345 @webview_devtools_remote_4321\n\
         0000000000000000: 00000002 00000000 00010000 0001 01 12346 @chrome_devtools_remote\n\
         0000000000000000: 00000002 00000000 00010000 0001 01 12347 @@chrome_devtools_remote_77\n\
         0000000000000000: 00000002 00000000 00010000 0001 01 12348 @webview_devtools_remote_4321\n\
         0000000000000000: 00000002 00000000 00010000 0001 01 12349 /dev/socket/other_9\n\
         0000000000000000: 00000003 00000000 00000000 0001 03 12350 @webview_devtools_remote_x1\n",
    );
    assert_eq!(
        list_webviews(&output),
        Ok(vec![
            WebView {
                socket_name: "webview_devtools_remote_4321".to_string(),
                pid: 4321,
                package_name: None,
            },
            WebView {
                socket_name: "chrome_devtools_remote_77".to_string(),
                pid: 77,
                package_name: None,
            },
        ])
    );
    assert_eq!(list_webviews(&printed("")), Ok(vec![]));
}

#[test]
fn a_looked_up_package_is_attached() {
    let webview = WebView { socket_name: "s_1".to_string(), pid: 1, package_name: None };
    assert_eq!(
        webview.clone().with_package(Ok("com.example".to_string())),
        WebView { socket_name: "s_1".to_string(), pid: 1, package_name: Some("com.example".to_string()) }
    );
    assert_eq!(
        webview.clone().with_package(Err(AdbError::CommandFailed("x".to_string()))),
        webview
    );
}

#[test]
fn the_package_is_the_first_word_of_the_command_line() {
    assert_eq!(
        get_package_name(&printed("com.example.app\0--flag\0")),
        Ok("com.example.app".to_string())
    );
    assert_eq!(get_package_name(&printed("  com.a \n")), Ok("com.a".to_string()));
    let missing = AdbError::CommandFailed("Could not get package name".to_string());
    assert_eq!(get_package_name(&printed("")), Err(missing.clone()));
    assert_eq!(get_package_name(&printed(" \0com.a")), Err(missing.clone()));
    assert_eq!(get_package_name(&failed("denied")), Err(missing));
}

#[test]
fn output_that_is_not_utf8_is_read_with_replacements() {
    let output = CommandOutput {
        success: true,
        stdout: b"heading\nab\xffc device model:P\xc3\n".to_vec(),
        stderr: Vec::new(),
    };
    assert_eq!(
        list_devices(&output),
        Ok(vec![Device {
            id: "ab\u{fffd}c".to_string(),
            name: "P\u{fffd}".to_string(),
            status: "device".to_string(),
        }])
    );
    let failure = CommandOutput { success: false, stdout: Vec::new(), stderr: b"no\xfe".to_vec() };
    assert_eq!(
        list_devices(&failure),
        Err(AdbError::CommandFailed("no\u{fffd}".to_string()))
    );
}

#[test]
fn texts_are_read_without_a_command() {
    assert_eq!(
        parse_devices("heading\nserial offline"),
        vec![Device {
            id: "serial".to_string(),
            name: "serial".to_string(),
            status: "offline".to_string(),
        }]
    );
    assert_eq!(
        parse_webviews("x @webview_devtools_remote_12"),
        vec![WebView {
            socket_name: "webview_devtools_remote_12".to_string(),
            pid: 12,
            package_name: None,
        }]
    );
    assert_eq!(parse_package_name("com.a\0x"), Some("com.a".to_string()));
    assert_eq!(parse_package_name("\0com.a"), None);
}

#[test]
fn the_arguments_of_every_command() {
    assert_eq!(list_devices_args(), vec!["devices", "-l"]);
    assert_eq!(list_webviews_args("dev1"), vec!["-s", "dev1", "shell", "cat", "/proc/net/unix"]);
    assert_eq!(
        get_package_name_args("dev1", 4321),
        vec!["-s", "dev1", "shell", "cat /proc/4321/cmdline"]
    );
    assert_eq!(
        forward_port_args("dev1", 9222, "webview_devtools_remote_4321"),
        vec!["-s", "dev1", "forward", "tcp:9222", "localabstract:webview_devtools_remote_4321"]
    );
    assert_eq!(
        remove_forward_args("dev1", 80),
        vec!["-s", "dev1", "forward", "--remove", "tcp:80"]
    );
    assert_eq!(remove_all_forwards_args("dev1"), vec!["-s", "dev1", "forward", "--remove-all"]);
}
