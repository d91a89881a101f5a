use plugin_bridge::assembly::plugin;
use plugin_bridge::boundary::{flatten, guest_outcome, FAILURE_CODE};
use plugin_bridge::descriptor::{
    extract_interface, extract_method, DeclaredMethod, DeclaredParam, DeclaredResult,
    DefinitionErrorKind, PathSegment,
};
use plugin_bridge::emit::{host_call, Payload};
use plugin_bridge::naming::{export_name, param_name};
use plugin_bridge::transform::{transform, Target};

fn typed(ty: &str) -> DeclaredParam {
    DeclaredParam::Typed { ty: ty.to_string() }
}

fn segment(ident: &str, args: &str) -> PathSegment {
    PathSegment { ident: ident.to_string(), args: args.to_string() }
}

fn path_result(wrapper: &str, args: &str) -> DeclaredResult {
    DeclaredResult::Path { segments: vec![segment(wrapper, args)] }
}

fn method(name: &str, params: Vec<DeclaredParam>, result: DeclaredResult) -> DeclaredMethod {
    DeclaredMethod { name: name.to_string(), params, result }
}

fn fetch() -> DeclaredMethod {
    method("fetch", vec![typed("i64")], path_result("PluginResult", "<String>"))
}

const FETCH_GUEST: &str = "\n#[plugin_fn]\npub fn plugin_fetch(arg0: i64) -> FnResult<String> {\n    ::plugin_bridge::boundary::guest_outcome(store::fetch(arg0).map_err(|e| e.to_string()))\n        .map_err(|f| WithReturnCode(Error::msg(f.message), f.code))\n}\n";

#[test]
fn export_name_prefixes() {
    assert_eq!(export_name("fetch"), "plugin_fetch");
    assert_eq!(export_name(""), "plugin_");
}

#[test]
fn param_names_follow_positions() {
    assert_eq!(param_name(0), "arg0");
    assert_eq!(param_name(7), "arg7");
    assert_eq!(param_name(12), "arg12");
    assert_eq!(param_name(305), "arg305");
}

#[test]
fn extract_keeps_types_in_order() {
    let m = method("put", vec![typed("String"), typed("u32")], path_result("PluginResult", "<()>"));
    let d = extract_method(&m).ok().unwrap();
    assert_eq!(d.name, "put");
    assert_eq!(d.param_types, vec!["String".to_string(), "u32".to_string()]);
    assert_eq!(d.result.wrapper, "PluginResult");
    assert_eq!(d.result.args, "<()>");
}

#[test]
fn extract_rejects_non_generic_result() {
    let e = extract_method(&method("name", vec![], path_result("String", ""))).err().unwrap();
    assert!(e.kind == DefinitionErrorKind::UnsupportedResult);
    assert_eq!(e.message(), "method `name`: expected PluginResult type");
    let a = plugin("", &vec![fetch(), method("name", vec![], path_result("String", ""))]);
    assert_eq!(a.err().unwrap().method, "name");
}

#[test]
fn extract_rejects_empty_path() {
    let m = method("odd", vec![], DeclaredResult::Path { segments: vec![] });
    let e = extract_method(&m).err().unwrap();
    assert!(e.kind == DefinitionErrorKind::UnsupportedResult);
}

#[test]
fn qualified_wrapper_is_its_last_segment() {
    let result = DeclaredResult::Path {
        segments: vec![segment("crate", ""), segment("PluginResult", "<Vec<u8>>")],
    };
    let d = extract_method(&method("load", vec![], result)).ok().unwrap();
    assert_eq!(d.result.wrapper, "PluginResult");
    assert_eq!(d.result.args, "<Vec<u8>>");
    assert_eq!(transform(&d, Target::GuestExport).result, "FnResult<Vec<u8>>");
    assert_eq!(transform(&d, Target::HostCall).result, "Result<Vec<u8>>");
}

#[test]
fn generic_wrapper_in_non_last_segment_is_rejected() {
    let result = DeclaredResult::Path {
        segments: vec![segment("PluginResult", "<u8>"), segment("Inner", "")],
    };
    let e = extract_method(&method("deep", vec![], result)).err().unwrap();
    assert!(e.kind == DefinitionErrorKind::UnsupportedResult);
}

#[test]
fn extract_rejects_receiver() {
    let m = method("get", vec![DeclaredParam::Receiver, typed("u8")], path_result("R", "<u8>"));
    let e = extract_method(&m).err().unwrap();
    assert!(e.kind == DefinitionErrorKind::ReceiverParameter);
    assert_eq!(e.method, "get");
    assert_eq!(e.message(), "method `get`: no self types in argument");
}

#[test]
fn extract_rejects_missing_result() {
    let e = extract_method(&method("ping", vec![], DeclaredResult::Absent)).err().unwrap();
    assert!(e.kind == DefinitionErrorKind::MissingResult);
    assert_eq!(e.message(), "method `ping`: expected return type");
}

#[test]
fn extract_rejects_non_path_result() {
    let e = extract_method(&method("pair", vec![], DeclaredResult::Other)).err().unwrap();
    assert!(e.kind == DefinitionErrorKind::UnsupportedResult);
    assert_eq!(e.message(), "method `pair`: expected PluginResult type");
}

#[test]
fn result_fault_is_reported_before_receiver() {
    let m = method("both", vec![DeclaredParam::Receiver], DeclaredResult::Absent);
    let e = extract_method(&m).err().unwrap();
    assert!(e.kind == DefinitionErrorKind::MissingResult);
}

#[test]
fn interface_reports_first_bad_method() {
    let ms = vec![
        fetch(),
        method("a", vec![], DeclaredResult::Other),
        method("b", vec![], DeclaredResult::Absent),
    ];
    let e = extract_interface(&ms).err().unwrap();
    assert_eq!(e.method, "a");
    assert!(e.kind == DefinitionErrorKind::UnsupportedResult);
}

#[test]
fn empty_interface_generates_empty_layers() {
    let a = plugin("trait Empty {}", &vec![]).ok().unwrap();
    assert_eq!(a.interface, "trait Empty {}");
    assert_eq!(a.guest.instantiate("m"), "");
    assert!(a.host.starts_with("mod calls {\n"));
    assert!(a.host.ends_with("use super::*;\n}\n"));
}

#[test]
fn guest_signature_is_renamed_and_rewrapped() {
    let d = extract_method(&fetch()).ok().unwrap();
    let s = transform(&d, Target::GuestExport);
    assert_eq!(s.name, "plugin_fetch");
    assert_eq!(s.result, "FnResult<String>");
    assert_eq!(s.params.len(), 1);
    assert_eq!(s.params[0].name, "arg0");
    assert_eq!(s.params[0].ty, "i64");
}

#[test]
fn host_signature_takes_handle_first() {
    let m = method("put", vec![typed("String"), typed("u32")], path_result("PluginResult", "<()>"));
    let d = extract_method(&m).ok().unwrap();
    let s = transform(&d, Target::HostCall);
    assert_eq!(s.name, "put");
    assert_eq!(s.result, "Result<()>");
    let names: Vec<&str> = s.params.iter().map(|b| b.name.as_str()).collect();
    assert_eq!(names, vec!["__plugin__", "arg0", "arg1"]);
    assert_eq!(s.params[0].ty, "&std::sync::Arc<tokio::sync::Mutex<extism::Plugin>>");
    assert_eq!(s.params[2].ty, "u32");
}

#[test]
fn guest_export_text_for_fetch() {
    let a = plugin("trait Api {}", &vec![fetch()]).ok().unwrap();
    assert_eq!(a.guest.instantiate("store"), FETCH_GUEST);
}

#[test]
fn nullary_method_sends_unit() {
    let m = method("count", vec![], path_result("PluginResult", "<u64>"));
    let d = extract_method(&m).ok().unwrap();
    let c = host_call(&d);
    assert_eq!(c.wire_name, "plugin_count");
    assert!(matches!(c.payload, Payload::Unit));
    let a = plugin("", &vec![m]).ok().unwrap();
    assert!(a.host.contains("__plugin__.blocking_lock().call(\"plugin_count\", ())"));
    assert!(a.host.contains("pub async fn count(__plugin__: &std::sync::Arc<tokio::sync::Mutex<extism::Plugin>>) -> Result<u64> {"));
}

#[test]
fn unary_method_sends_its_parameter() {
    let d = extract_method(&fetch()).ok().unwrap();
    match host_call(&d).payload {
        Payload::Param { name } => assert_eq!(name, "arg0"),
        Payload::Unit => panic!("expected the parameter as payload"),
    }
    let a = plugin("", &vec![fetch()]).ok().unwrap();
    assert!(a.host.contains("__plugin__.blocking_lock().call(\"plugin_fetch\", arg0)"));
}

#[test]
fn binary_method_sends_unit() {
    let m = method("put", vec![typed("String"), typed("u32")], path_result("PluginResult", "<()>"));
    let d = extract_method(&m).ok().unwrap();
    assert!(matches!(host_call(&d).payload, Payload::Unit));
}

#[test]
fn host_wrapper_locks_handle_inside_worker() {
    let a = plugin("", &vec![fetch()]).ok().unwrap();
    assert!(a.host.contains("let __plugin__ = __plugin__.clone();"));
    assert!(a.host.contains("tokio::task::spawn_blocking(move || __plugin__.blocking_lock().call("));
}

#[test]
fn guest_success_passes_through() {
    let r = guest_outcome::<String>(Ok("payload".to_string()));
    assert_eq!(r.ok().unwrap(), "payload");
}

#[test]
fn guest_failure_carries_message_and_code_one() {
    let f = guest_outcome::<String>(Err("boom".to_string())).err().unwrap();
    assert_eq!(f.message, "boom");
    assert_eq!(f.code, 1);
    assert_eq!(FAILURE_CODE, 1);
}

#[test]
fn dispatch_failure_differs_from_guest_failure() {
    let d = flatten::<String>(Err("task 3 panicked".to_string())).err().unwrap();
    let g = flatten::<String>(Ok(Err("task 3 panicked".to_string()))).err().unwrap();
    assert_eq!(d.message, "worker dispatch failed: task 3 panicked");
    assert_eq!(g.message, "plugin call failed: task 3 panicked");
    assert_ne!(d.message, g.message);
    assert_eq!(flatten::<u8>(Ok(Ok(9))).ok().unwrap(), 9);
}

// The implementation side of the end-to-end fetch scenario.
fn store_fetch(id: i64) -> Result<String, String> {
    if id == 1 {
        Ok("ok".to_string())
    } else {
        Err("missing".to_string())
    }
}

#[test]
fn fetch_end_to_end() {
    let a = plugin("trait Api { fn fetch(id: i64) -> PluginResult<String>; }", &vec![fetch()])
        .ok()
        .unwrap();
    assert_eq!(a.guest.instantiate("store"), FETCH_GUEST);
    assert!(a.host.contains("pub async fn fetch(__plugin__: &std::sync::Arc<tokio::sync::Mutex<extism::Plugin>>, arg0: i64) -> Result<String> {"));
    assert!(a.host.contains("call(\"plugin_fetch\", arg0)"));

    let found = guest_outcome(store_fetch(1));
    let host_found = flatten(Ok(found.map_err(|f| f.message)));
    assert_eq!(host_found.ok().unwrap(), "ok");

    let missing = guest_outcome(store_fetch(2));
    let f = missing.err().unwrap();
    assert_eq!(f.code, 1);
    let host_missing = flatten::<String>(Ok(Err(f.message)));
    assert!(host_missing.err().unwrap().message.contains("missing"));
}
