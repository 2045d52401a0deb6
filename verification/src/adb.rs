//! The device bridge: which commands to run, and what their output means.
//!
//! Nothing here starts a process. A driver runs the bridge with the
//! arguments given here and hands back what it printed.

use crate::text::{
    chars_of, contains, has_infix, has_prefix_at, lines, opt_view, parse_u32, parse_u32_of,
    push_decimal, decimal, rows, split_at, split_at_char, starts_with, string_of, strip_all,
    strip_all_of, trim, trimmed, views, words, words_of,
};
use std::collections::HashSet;
use vstd::prelude::*;
use vstd::string::*;

verus! {

/// Why a bridge command failed.
#[derive(Debug, Clone, PartialEq, Eq)]
pub enum AdbError {
    /// The command could not be run at all.
    ExecutionFailed(String),
    /// The command ran and reported failure.
    CommandFailed(String),
}

impl AdbError {
    /// The text of the error as it is shown to a user.
    pub open spec fn text(self) -> Seq<char> {
        match self {
            AdbError::ExecutionFailed(m) => "Failed to execute ADB command: "@ + m@,
            AdbError::CommandFailed(m) => "ADB command failed with output: "@ + m@,
        }
    }

    pub fn message(&self) -> (r: String)
        ensures
            r@ == self.text(),
    {
        match self {
            AdbError::ExecutionFailed(m) => "Failed to execute ADB command: ".to_owned().concat(
                m.as_str(),
            ),
            AdbError::CommandFailed(m) => "ADB command failed with output: ".to_owned().concat(
                m.as_str(),
            ),
        }
    }
}

/// A device as the bridge lists it.
#[derive(Debug, Clone, PartialEq, Eq)]
pub struct Device {
    pub id: String,
    pub name: String,
    pub status: String,
}

/// What a [`Device`] holds, with texts as character sequences.
pub struct DeviceView {
    pub id: Seq<char>,
    pub name: Seq<char>,
    pub status: Seq<char>,
}

impl View for Device {
    type V = DeviceView;

    open spec fn view(&self) -> DeviceView {
        DeviceView { id: self.id@, name: self.name@, status: self.status@ }
    }
}

/// A debuggable webview: its socket, the process behind it and, once looked
/// up, that process's package.
#[derive(Debug, Clone, PartialEq, Eq)]
pub struct WebView {
    pub socket_name: String,
    pub pid: u32,
    pub package_name: Option<String>,
}

/// What a [`WebView`] holds, with texts as character sequences.
pub struct WebViewView {
    pub socket_name: Seq<char>,
    pub pid: u32,
    pub package_name: Option<Seq<char>>,
}

impl View for WebView {
    type V = WebViewView;

    open spec fn view(&self) -> WebViewView {
        WebViewView {
            socket_name: self.socket_name@,
            pid: self.pid,
            package_name: opt_view(self.package_name),
        }
    }
}

/// What a finished bridge command left behind: whether it reported success,
/// and the bytes it wrote to its two outputs.
#[derive(Debug, Clone, PartialEq, Eq)]
pub struct CommandOutput {
    pub success: bool,
    pub stdout: Vec<u8>,
    pub stderr: Vec<u8>,
}

/// The text that the standard library reads from bytes when it replaces
/// whatever is not valid UTF-8.
pub uninterp spec fn lossy_text(bytes: Seq<u8>) -> Seq<char>;

/// `String::from_utf8_lossy` from the standard library, as an owned text.
/// The text depends on the bytes alone.
#[verifier::external_body]
fn decode_lossy(bytes: &Vec<u8>) -> (r: String)
    ensures
        r@ == lossy_text(bytes@),
{
    String::from_utf8_lossy(bytes).to_string()
}

/// The error of a command that reported failure: what it wrote to its error
/// output.
pub open spec fn is_failure_of(e: AdbError, output: CommandOutput) -> bool {
    e matches AdbError::CommandFailed(m) && m@ == lossy_text(output.stderr@)
}

/// The views of a list of devices.
pub open spec fn device_views(devices: Seq<Device>) -> Seq<DeviceView> {
    devices.map_values(|d: Device| d@)
}

/// The views of a list of webviews.
pub open spec fn webview_views(webviews: Seq<WebView>) -> Seq<WebViewView> {
    webviews.map_values(|w: WebView| w@)
}

/// The first of `parts` that begins with `prefix`.
pub open spec fn find_prefixed(parts: Seq<Seq<char>>, prefix: Seq<char>) -> Option<Seq<char>>
    decreases parts.len(),
{
    if parts.len() == 0 {
        None
    } else if starts_with(parts[0], prefix) {
        Some(parts[0])
    } else {
        find_prefixed(parts.drop_first(), prefix)
    }
}

/// The device that one line of the device list describes: its first word is
/// the id, its second the status, and its name is what follows `model:` in
/// the first word that begins so, or else the id. A line of fewer than two
/// words describes none.
pub open spec fn device_of(line: Seq<char>) -> Option<DeviceView> {
    let parts = words(line);
    if parts.len() >= 2 {
        Some(
            DeviceView {
                id: parts[0],
                status: parts[1],
                name: match find_prefixed(parts, "model:"@) {
                    Some(part) => strip_all(part, "model:"@),
                    None => parts[0],
                },
            },
        )
    } else {
        None
    }
}

/// The devices that the given lines describe, in order.
pub open spec fn devices_of(listing: Seq<Seq<char>>) -> Seq<DeviceView>
    decreases listing.len(),
{
    if listing.len() == 0 {
        Seq::empty()
    } else {
        let earlier = devices_of(listing.drop_last());
        match device_of(listing.last()) {
            Some(device) => earlier.push(device),
            None => earlier,
        }
    }
}

/// The devices in the output of the device list: every line but the first,
/// which is a heading.
pub open spec fn devices_in(stdout: Seq<char>) -> Seq<DeviceView> {
    devices_of(lines(stdout).skip(1))
}

/// Whether a line of the socket table names a devtools socket.
pub open spec fn is_devtools_socket(line: Seq<char>) -> bool {
    contains(line, "webview_devtools_remote_"@) || contains(line, "chrome_devtools_remote"@)
}

/// The socket and process that one line of the socket table names: the
/// socket is the line's last word without leading `@`, the process id what
/// follows the socket's last underscore.
pub open spec fn socket_of(line: Seq<char>) -> Option<(Seq<char>, u32)> {
    if is_devtools_socket(line) && words(line).len() > 0 {
        let name = strip_all(words(line).last(), seq!['@']);
        match parse_u32(split_at(name, '_').last()) {
            Some(pid) => Some((name, pid)),
            None => None,
        }
    } else {
        None
    }
}

/// Whether one of the webviews belongs to the process.
pub open spec fn has_pid(found: Seq<WebViewView>, pid: u32) -> bool {
    exists|k: int| 0 <= k < found.len() && (#[trigger] found[k]).pid == pid
}

/// The webviews that the given lines name, in order, one for each process.
pub open spec fn webviews_of(table: Seq<Seq<char>>) -> Seq<WebViewView>
    decreases table.len(),
{
    if table.len() == 0 {
        Seq::empty()
    } else {
        let earlier = webviews_of(table.drop_last());
        match socket_of(table.last()) {
            Some((name, pid)) => if has_pid(earlier, pid) {
                earlier
            } else {
                earlier.push(WebViewView { socket_name: name, pid, package_name: None })
            },
            None => earlier,
        }
    }
}

/// The package that the output of a command-line lookup names: what stands
/// before the first NUL, without surrounding white space.
pub open spec fn package_in(stdout: Seq<char>) -> Seq<char> {
    trim(split_at(stdout, '\0')[0])
}

/// The error of a command that reported failure, or nothing if it succeeded.
pub fn ensure_success(output: &CommandOutput) -> (r: Result<(), AdbError>)
    ensures
        match r {
            Ok(_) => output.success,
            Err(e) => !output.success && is_failure_of(e, *output),
        },
{
    if output.success {
        Ok(())
    } else {
        Err(AdbError::CommandFailed(decode_lossy(&output.stderr)))
    }
}

/// The arguments that list the attached devices.
pub fn list_devices_args() -> (r: Vec<String>)
    ensures
        views(r@) == seq!["devices"@, "-l"@],
{
    let mut args: Vec<String> = Vec::new();
    args.push("devices".to_owned());
    args.push("-l".to_owned());
    assert(views(args@) =~= seq!["devices"@, "-l"@]);
    args
}

fn parse_device(line: &Vec<char>) -> (r: Option<Device>)
    ensures
        match r {
            Some(device) => device_of(line@) == Some(device@),
            None => device_of(line@) is None,
        },
{
    let parts = words_of(line);
    if parts.len() < 2 {
        return None;
    }
    assert(rows(parts@)[0] == parts@[0]@);
    assert(rows(parts@)[1] == parts@[1]@);
    let prefix = chars_of("model:");
    let mut i: usize = 0;
    let mut name: Option<Vec<char>> = None;
    assert(rows(parts@).skip(0) == rows(parts@));
    while i < parts.len()
        invariant_except_break
            name is None,
            find_prefixed(rows(parts@), prefix@) == find_prefixed(
                rows(parts@).skip(i as int),
                prefix@,
            ),
        invariant
            i <= parts@.len(),
            prefix@ == "model:"@,
        ensures
            match name {
                Some(n) => find_prefixed(rows(parts@), prefix@) is Some && n@ == strip_all(
                    find_prefixed(rows(parts@), prefix@)->0,
                    prefix@,
                ),
                None => find_prefixed(rows(parts@), prefix@) is None,
            },
        decreases parts@.len() - i,
    {
        let ghost rest = rows(parts@).skip(i as int);
        assert(rest[0] == parts@[i as int]@);
        assert(rest.drop_first() == rows(parts@).skip(i + 1));
        assert(parts@[i as int]@.skip(0) == parts@[i as int]@);
        if has_prefix_at(&parts[i], 0, &prefix) {
            name = Some(strip_all_of(&parts[i], &prefix));
            break ;
        }
        i += 1;
    }
    let id = string_of(&parts[0]);
    let status = string_of(&parts[1]);
    let name = match name {
        Some(n) => string_of(&n),
        None => string_of(&parts[0]),
    };
    Some(Device { id, name, status })
}

/// Reads the text of the device list.
pub fn parse_devices(stdout: &str) -> (devices: Vec<Device>)
    ensures
        device_views(devices@) == devices_in(stdout@),
{
    let text = chars_of(stdout);
    let listing = split_at_char(&text, '\n');
    let mut devices: Vec<Device> = Vec::new();
    let mut i: usize = 1;
    let ghost body = lines(stdout@).skip(1);
    assert(body.take(0) == Seq::<Seq<char>>::empty());
    assert(device_views(devices@) == devices_of(body.take(0)));
    while i < listing.len()
        invariant
            1 <= i <= listing@.len(),
            rows(listing@) == lines(stdout@),
            body == lines(stdout@).skip(1),
            device_views(devices@) == devices_of(body.take(i - 1)),
        decreases listing@.len() - i,
    {
        proof {
            let next = body.take(i as int);
            assert(next.drop_last() == body.take(i - 1));
            assert(next.last() == listing@[i as int]@) by {
                assert(rows(listing@)[i as int] == listing@[i as int]@);
            }
        }
        match parse_device(&listing[i]) {
            Some(device) => {
                let ghost earlier = device_views(devices@);
                devices.push(device);
                assert(device_views(devices@) == earlier.push(device@));
            },
            None => {},
        }
        i += 1;
    }
    assert(body.take(i - 1) == body);
    devices
}

/// Reads the output of the device list: the devices that its text lists, or
/// the failure that the command reported.
pub fn list_devices(output: &CommandOutput) -> (r: Result<Vec<Device>, AdbError>)
    ensures
        match r {
            Ok(devices) => output.success && device_views(devices@) == devices_in(
                lossy_text(output.stdout@),
            ),
            Err(e) => !output.success && is_failure_of(e, *output),
        },
{
    match ensure_success(output) {
        Ok(_) => Ok(parse_devices(decode_lossy(&output.stdout).as_str())),
        Err(e) => Err(e),
    }
}

/// The arguments that print the socket table of a device.
pub fn list_webviews_args(device_id: &str) -> (r: Vec<String>)
    ensures
        views(r@) == seq!["-s"@, device_id@, "shell"@, "cat"@, "/proc/net/unix"@],
{
    let mut args: Vec<String> = Vec::new();
    args.push("-s".to_owned());
    args.push(device_id.to_owned());
    args.push("shell".to_owned());
    args.push("cat".to_owned());
    args.push("/proc/net/unix".to_owned());
    assert(views(args@) =~= seq!["-s"@, device_id@, "shell"@, "cat"@, "/proc/net/unix"@]);
    args
}

fn parse_socket(line: &Vec<char>) -> (r: Option<(Vec<char>, u32)>)
    ensures
        match r {
            Some((name, pid)) => socket_of(line@) == Some((name@, pid)),
            None => socket_of(line@) is None,
        },
{
    let webview = chars_of("webview_devtools_remote_");
    let chrome = chars_of("chrome_devtools_remote");
    if !(has_infix(line, &webview) || has_infix(line, &chrome)) {
        return None;
    }
    let parts = words_of(line);
    if parts.len() == 0 {
        return None;
    }
    assert(rows(parts@).last() == parts@[parts@.len() - 1]@);
    let mut at: Vec<char> = Vec::new();
    at.push('@');
    assert(at@ == seq!['@']);
    let name = strip_all_of(&parts[parts.len() - 1], &at);
    let pieces = split_at_char(&name, '_');
    assert(rows(pieces@).last() == pieces@[pieces@.len() - 1]@);
    match parse_u32_of(&pieces[pieces.len() - 1]) {
        Some(pid) => Some((name, pid)),
        None => None,
    }
}

/// Reads the text of the socket table of a device. The package names are not
/// known yet.
pub fn parse_webviews(stdout: &str) -> (found: Vec<WebView>)
    ensures
        webview_views(found@) == webviews_of(lines(stdout@)),
{
    let text = chars_of(stdout);
    let table = split_at_char(&text, '\n');
    let mut found: Vec<WebView> = Vec::new();
    let mut seen: HashSet<u32> = HashSet::new();
    let mut i: usize = 0;
    let ghost all = lines(stdout@);
    assert(all.take(0) == Seq::<Seq<char>>::empty());
    assert(webview_views(found@) == webviews_of(all.take(0)));
    while i < table.len()
        invariant
            i <= table@.len(),
            rows(table@) == all,
            webview_views(found@) == webviews_of(all.take(i as int)),
            forall|p: u32| seen@.contains(p) <==> has_pid(webview_views(found@), p),
        decreases table@.len() - i,
    {
        broadcast use vstd::std_specs::hash::group_hash_axioms;

        proof {
            let next = all.take(i + 1);
            assert(next.drop_last() == all.take(i as int));
            assert(next.last() == table@[i as int]@) by {
                assert(rows(table@)[i as int] == table@[i as int]@);
            }
        }
        match parse_socket(&table[i]) {
            Some((name, pid)) => {
                if seen.insert(pid) {
                    let ghost earlier = webview_views(found@);
                    let webview = WebView {
                        socket_name: string_of(&name),
                        pid,
                        package_name: None,
                    };
                    found.push(webview);
                    assert(webview_views(found@) == earlier.push(webview@));
                    assert forall|p: u32| seen@.contains(p) <==> has_pid(
                        webview_views(found@),
                        p,
                    ) by {
                        let now = webview_views(found@);
                        if has_pid(earlier, p) {
                            let k = choose|k: int| 0 <= k < earlier.len() && (
                            #[trigger] earlier[k]).pid == p;
                            assert(now[k].pid == p);
                        }
                        if p == pid {
                            assert(now[earlier.len() as int].pid == p);
                        }
                        if has_pid(now, p) && p != pid {
                            let k = choose|k: int| 0 <= k < now.len() && (#[trigger] now[k]).pid
                                == p;
                            assert(earlier[k].pid == p);
                        }
                    }
                }
            },
            None => {},
        }
        i += 1;
    }
    assert(all.take(i as int) == all);
    found
}

/// Reads the output of the socket table of a device: the webviews that its
/// text names, or the failure that the command reported.
pub fn list_webviews(output: &CommandOutput) -> (r: Result<Vec<WebView>, AdbError>)
    ensures
        match r {
            Ok(found) => output.success && webview_views(found@) == webviews_of(
                lines(lossy_text(output.stdout@)),
            ),
            Err(e) => !output.success && is_failure_of(e, *output),
        },
{
    match ensure_success(output) {
        Ok(_) => Ok(parse_webviews(decode_lossy(&output.stdout).as_str())),
        Err(e) => Err(e),
    }
}

impl WebView {
    /// The webview with the package that a lookup found; a failed lookup
    /// leaves it as it is.
    pub fn with_package(self, looked_up: Result<String, AdbError>) -> (r: WebView)
        ensures
            r == match looked_up {
                Ok(package) => WebView { package_name: Some(package), ..self },
                Err(_) => self,
            },
    {
        match looked_up {
            Ok(package) => WebView {
                socket_name: self.socket_name,
                pid: self.pid,
                package_name: Some(package),
            },
            Err(_) => self,
        }
    }
}

/// The arguments that print the command line of a process on a device.
pub fn get_package_name_args(device_id: &str, pid: u32) -> (r: Vec<String>)
    ensures
        views(r@) == seq![
            "-s"@,
            device_id@,
            "shell"@,
            "cat /proc/"@ + decimal(pid as nat) + "/cmdline"@,
        ],
{
    let mut command = "cat /proc/".to_owned();
    push_decimal(&mut command, pid as u128);
    command.append("/cmdline");
    let mut args: Vec<String> = Vec::new();
    args.push("-s".to_owned());
    args.push(device_id.to_owned());
    args.push("shell".to_owned());
    args.push(command);
    assert(views(args@) =~= seq![
        "-s"@,
        device_id@,
        "shell"@,
        "cat /proc/"@ + decimal(pid as nat) + "/cmdline"@,
    ]);
    args
}

/// Reads the text of a command-line lookup: the package, if it names one.
pub fn parse_package_name(stdout: &str) -> (r: Option<String>)
    ensures
        match r {
            Some(package) => package@ == package_in(stdout@) && package@.len() > 0,
            None => package_in(stdout@).len() == 0,
        },
{
    let text = chars_of(stdout);
    let pieces = split_at_char(&text, '\0');
    assert(rows(pieces@)[0] == pieces@[0]@);
    let package = trimmed(&pieces[0]);
    if package.len() > 0 {
        Some(string_of(&package))
    } else {
        None
    }
}

/// Reads the output of a command-line lookup: the package, if the command
/// succeeded and named one.
pub fn get_package_name(output: &CommandOutput) -> (r: Result<String, AdbError>)
    ensures
        match r {
            Ok(package) => {
                &&& output.success
                &&& package@ == package_in(lossy_text(output.stdout@))
                &&& package@.len() > 0
            },
            Err(e) => {
                &&& !output.success || package_in(lossy_text(output.stdout@)).len() == 0
                &&& e matches AdbError::CommandFailed(m)
                &&& m@ == "Could not get package name"@
            },
        },
{
    if output.success {
        match parse_package_name(decode_lossy(&output.stdout).as_str()) {
            Some(package) => {
                return Ok(package);
            },
            None => {},
        }
    }
    Err(AdbError::CommandFailed("Could not get package name".to_owned()))
}

/// The arguments that forward a local port to a socket of a device.
pub fn forward_port_args(device_id: &str, local_port: u16, socket_name: &str) -> (r: Vec<
    String,
>)
    ensures
        views(r@) == seq![
            "-s"@,
            device_id@,
            "forward"@,
            "tcp:"@ + decimal(local_port as nat),
            "localabstract:"@ + socket_name@,
        ],
{
    let mut local = "tcp:".to_owned();
    push_decimal(&mut local, local_port as u128);
    let remote = "localabstract:".to_owned().concat(socket_name);
    let mut args: Vec<String> = Vec::new();
    args.push("-s".to_owned());
    args.push(device_id.to_owned());
    args.push("forward".to_owned());
    args.push(local);
    args.push(remote);
    assert(views(args@) =~= seq![
        "-s"@,
        device_id@,
        "forward"@,
        "tcp:"@ + decimal(local_port as nat),
        "localabstract:"@ + socket_name@,
    ]);
    args
}

/// Reads the outcome of forwarding a port.
pub fn forward_port(output: &CommandOutput) -> (r: Result<(), AdbError>)
    ensures
        match r {
            Ok(_) => output.success,
            Err(e) => !output.success && is_failure_of(e, *output),
        },
{
    ensure_success(output)
}

/// The arguments that remove the forward of one local port.
pub fn remove_forward_args(device_id: &str, local_port: u16) -> (r: Vec<String>)
    ensures
        views(r@) == seq![
            "-s"@,
            device_id@,
            "forward"@,
            "--remove"@,
            "tcp:"@ + decimal(local_port as nat),
        ],
{
    let mut local = "tcp:".to_owned();
    push_decimal(&mut local, local_port as u128);
    let mut args: Vec<String> = Vec::new();
    args.push("-s".to_owned());
    args.push(device_id.to_owned());
    args.push("forward".to_owned());
    args.push("--remove".to_owned());
    args.push(local);
    assert(views(args@) =~= seq![
        "-s"@,
        device_id@,
        "forward"@,
        "--remove"@,
        "tcp:"@ + decimal(local_port as nat),
    ]);
    args
}

/// Reads the outcome of removing a forward.
pub fn remove_forward(output: &CommandOutput) -> (r: Result<(), AdbError>)
    ensures
        match r {
            Ok(_) => output.success,
            Err(e) => !output.success && is_failure_of(e, *output),
        },
{
    ensure_success(output)
}

/// The arguments that remove every forward of a device.
pub fn remove_all_forwards_args(device_id: &str) -> (r: Vec<String>)
    ensures
        views(r@) == seq!["-s"@, device_id@, "forward"@, "--remove-all"@],
{
    let mut args: Vec<String> = Vec::new();
    args.push("-s".to_owned());
    args.push(device_id.to_owned());
    args.push("forward".to_owned());
    args.push("--remove-all".to_owned());
    assert(views(args@) =~= seq!["-s"@, device_id@, "forward"@, "--remove-all"@]);
    args
}

/// Reads the outcome of removing every forward.
pub fn remove_all_forwards(output: &CommandOutput) -> (r: Result<(), AdbError>)
    ensures
        match r {
            Ok(_) => output.success,
            Err(e) => !output.success && is_failure_of(e, *output),
        },
{
    ensure_success(output)
}

} // verus!
