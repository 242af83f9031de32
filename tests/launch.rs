use mobiledevice::launch::{lldb_script, proxy_endpoint, push_decimal};

#[test]
fn endpoint_for_ports() {
    assert_eq!(proxy_endpoint(0), "localhost:0");
    assert_eq!(proxy_endpoint(9), "localhost:9");
    assert_eq!(proxy_endpoint(10), "localhost:10");
    assert_eq!(proxy_endpoint(8080), "localhost:8080");
    assert_eq!(proxy_endpoint(65535), "localhost:65535");
}

#[test]
fn decimal_appends() {
    let mut s = String::from("port=");
    push_decimal(&mut s, 1200);
    assert_eq!(s, "port=1200");
}

#[test]
fn script_text_in_order() {
    let s = lldb_script(
        "/Dev/DeviceSupport/13.4",
        "/work/target/app",
        "/tmp/x/helpers.py",
        "localhost:5000",
        "/private/var/app/App.app",
        "--flag 1",
    );
    let expected = "platform select remote-ios --sysroot '/Dev/DeviceSupport/13.4'\n\
target create /work/target/app\n\
script pass\n\
command script import \"/tmp/x/helpers.py\"\n\
command script add -f helpers.set_remote_path set_remote_path\n\
command script add -f helpers.connect_command connect\n\
command script add -s synchronous -f helpers.run_command run\n\
connect connect://localhost:5000\n\
set_remote_path /private/var/app/App.app\n\
run --flag 1\n\
quit\n";
    assert_eq!(s, expected);
}
