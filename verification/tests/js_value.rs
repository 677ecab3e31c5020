use servo_capi::c_string::fits_c_string;
use servo_capi::js_value::{evaluation_result_text, js_value_to_string, JsValue};

#[test]
fn scalars_are_written_as_javascript_does() {
    assert_eq!(js_value_to_string(&JsValue::Undefined), "undefined");
    assert_eq!(js_value_to_string(&JsValue::Null), "null");
    assert_eq!(js_value_to_string(&JsValue::Boolean(true)), "true");
    assert_eq!(js_value_to_string(&JsValue::Boolean(false)), "false");
    assert_eq!(js_value_to_string(&JsValue::Number(1.5f64.to_string())), "1.5");
    assert_eq!(js_value_to_string(&JsValue::String("hi".to_string())), "hi");
    assert_eq!(js_value_to_string(&JsValue::Element("el-1".to_string())), "el-1");
    assert_eq!(js_value_to_string(&JsValue::ShadowRoot("sr".to_string())), "sr");
    assert_eq!(js_value_to_string(&JsValue::Frame("f".to_string())), "f");
    assert_eq!(js_value_to_string(&JsValue::Window("w".to_string())), "w");
}

#[test]
fn arrays_and_objects_nest() {
    let value = JsValue::Array(vec![
        JsValue::Number("1".to_string()),
        JsValue::Object(vec![
            ("a".to_string(), JsValue::Null),
            ("b".to_string(), JsValue::Array(vec![])),
        ]),
        JsValue::String("x".to_string()),
    ]);
    assert_eq!(js_value_to_string(&value), "[1,{a:null,b:[]},x]");
    assert_eq!(js_value_to_string(&JsValue::Object(vec![])), "{}");
    assert_eq!(
        js_value_to_string(&JsValue::Array(vec![JsValue::Boolean(true)])),
        "[true]"
    );
}

#[test]
fn evaluation_result_text_fails_on_error_or_nul() {
    assert_eq!(evaluation_result_text(None), None);
    assert_eq!(
        evaluation_result_text(Some(&JsValue::Undefined)),
        Some("undefined".to_string())
    );
    assert_eq!(
        evaluation_result_text(Some(&JsValue::String("a\0b".to_string()))),
        None
    );
    assert_eq!(
        evaluation_result_text(Some(&JsValue::Array(vec![JsValue::String("\0".to_string())]))),
        None
    );
}

#[test]
fn c_strings_hold_no_nul() {
    assert!(fits_c_string(""));
    assert!(fits_c_string("servo://example/é"));
    assert!(!fits_c_string("a\0"));
    assert!(!fits_c_string("\0b"));
}
