use sauron_vdom::Attribute;
use sauron_vdom::AttribValue;
use sauron_vdom::Callback;
use sauron_vdom::NoCallback;
use sauron_vdom::Value;

type ValueAttr = Attribute<&'static str, i32, i32, NoCallback>;

#[test]
fn value_attribute_classifies_value_only() {
    let a: ValueAttr = Attribute::from_value("checked", Value::Bool(true));
    assert!(a.is_value());
    assert!(!a.is_event());
    assert!(!a.is_func_call());
}

#[test]
fn value_attribute_pretty_string() {
    let a: ValueAttr = Attribute::from_value("checked", Value::Bool(true));
    assert_eq!(a.to_pretty_string(), r#"checked="true""#);
}

#[test]
fn text_value_pretty_string() {
    let a: ValueAttr = Attribute::from_value("class", Value::Text(String::from("frame")));
    assert_eq!(a.to_pretty_string(), r#"class="frame""#);
}

#[test]
fn bool_false_pretty_string() {
    let a: ValueAttr = Attribute::from_value("checked", Value::Bool(false));
    assert_eq!(a.to_pretty_string(), r#"checked="false""#);
}

#[test]
fn uint_zero_pretty_string() {
    let a: ValueAttr = Attribute::from_value("width", Value::UInt(0));
    assert_eq!(a.to_pretty_string(), r#"width="0""#);
}

#[test]
fn uint_pretty_string() {
    let a: ValueAttr = Attribute::from_value("width", Value::UInt(12305));
    assert_eq!(a.to_pretty_string(), r#"width="12305""#);
}

#[test]
fn uint_largest_pretty_string() {
    let a: ValueAttr = Attribute::from_value("big", Value::UInt(u64::MAX));
    assert_eq!(a.to_pretty_string(), r#"big="18446744073709551615""#);
}

#[test]
fn string_name_pretty_string() {
    let a: Attribute<String, i32, i32, NoCallback> =
        Attribute::from_value(String::from("id"), Value::Text(String::from("root")));
    assert_eq!(a.to_pretty_string(), r#"id="root""#);
}

#[test]
fn callback_attribute_classifies_event_only() {
    let cb = Callback::from_func(|e: i32| e + 1);
    let a = Attribute::from_callback("onclick", cb);
    assert!(a.is_event());
    assert!(!a.is_value());
    assert!(!a.is_func_call());
}

#[test]
fn callback_attribute_pretty_string_is_empty() {
    let cb = Callback::from_func(|e: i32| e + 1);
    let a = Attribute::from_callback("onclick", cb);
    assert_eq!(a.to_pretty_string(), "");
}

#[test]
fn func_call_attribute_classifies_func_call_only() {
    let a: ValueAttr = Attribute {
        name: "inner_html",
        value: AttribValue::FuncCall(Value::Text(String::from("<b>hi</b>"))),
        namespace: None,
    };
    assert!(a.is_func_call());
    assert!(!a.is_value());
    assert!(!a.is_event());
}

#[test]
fn func_call_attribute_pretty_string_is_empty() {
    let a: ValueAttr = Attribute {
        name: "inner_html",
        value: AttribValue::FuncCall(Value::Text(String::from("payload"))),
        namespace: None,
    };
    assert_eq!(a.to_pretty_string(), "");
}

#[test]
fn namespaced_value_pretty_string() {
    let mut a: ValueAttr = Attribute::from_value("href", Value::Text(String::from("x")));
    a.namespace = Some(String::from("xlink"));
    assert_eq!(a.to_pretty_string(), r#"xlink:href="x""#);
}

#[test]
fn get_value_on_value_and_func_call() {
    let a: ValueAttr = Attribute::from_value("alt", Value::Text(String::from("logo")));
    match a.get_value() {
        Some(Value::Text(s)) => assert_eq!(s, "logo"),
        _ => panic!("expected the stored text value"),
    }
    let b: ValueAttr = Attribute {
        name: "value",
        value: AttribValue::FuncCall(Value::UInt(7)),
        namespace: None,
    };
    match b.get_value() {
        Some(Value::UInt(n)) => assert_eq!(*n, 7),
        _ => panic!("expected the stored numeric value"),
    }
}

#[test]
fn get_value_absent_on_callback() {
    let cb = Callback::from_func(|e: i32| e + 1);
    let a = Attribute::from_callback("onclick", cb);
    assert!(a.get_value().is_none());
}

#[test]
fn get_callback_present_only_on_callback() {
    let cb = Callback::from_func(|e: i32| e * 3);
    let a = Attribute::from_callback("onclick", cb);
    assert!(a.get_callback().is_some());
    let b: ValueAttr = Attribute::from_value("checked", Value::Bool(true));
    assert!(b.get_callback().is_none());
}

#[test]
fn take_callback_absent_on_value_and_func_call() {
    let a: ValueAttr = Attribute::from_value("checked", Value::Bool(true));
    assert!(a.take_callback().is_none());
    let b: ValueAttr = Attribute {
        name: "value",
        value: AttribValue::FuncCall(Value::Bool(false)),
        namespace: None,
    };
    assert!(b.take_callback().is_none());
}

#[test]
fn take_callback_yields_the_callback() {
    let cb = Callback::from_func(|e: i32| e + 41);
    let a = Attribute::from_callback("onclick", cb);
    let taken = a.take_callback().expect("an event attribute holds a callback");
    assert_eq!(taken.emit(1), 42);
}

#[test]
fn emit_computes_the_message() {
    let cb = Callback::from_func(|e: u64| e % 10);
    assert_eq!(cb.emit(1234), 4);
}

#[test]
fn map_callback_postcomposes() {
    let c = Callback::from_func(|e: i32| e + 1);
    let g = Callback::from_func(|m: i32| m * 2);
    let a = Attribute::from_callback("onclick", c);
    let b = a.map_callback(g);
    let taken = b.take_callback().expect("mapping keeps the callback payload");
    // g(c(5)) = (5 + 1) * 2
    assert_eq!(taken.emit(5), 12);
}

#[test]
fn reform_precomposes() {
    let c = Callback::from_func(|e: i32| e + 100);
    let a = Attribute::from_callback("onclick", c);
    let b = a.reform(|raw: i32| raw % 10);
    let taken = b.take_callback().expect("reforming keeps the callback payload");
    // c(f(42)) = (42 % 10) + 100
    assert_eq!(taken.emit(42), 102);
}

#[test]
fn map_callback_preserves_classification() {
    let g = Callback::from_func(|m: i32| m - 1);
    let a: ValueAttr = Attribute::from_value("checked", Value::Bool(true));
    let b = a.map_callback(g);
    assert!(b.is_value());
    assert!(!b.is_event());
    assert!(!b.is_func_call());

    let g2 = Callback::from_func(|m: i32| m - 1);
    let f: ValueAttr = Attribute {
        name: "value",
        value: AttribValue::FuncCall(Value::UInt(3)),
        namespace: None,
    };
    let fb = f.map_callback(g2);
    assert!(fb.is_func_call());

    let g3 = Callback::from_func(|m: i32| m - 1);
    let c = Callback::from_func(|e: i32| e * 2);
    let e = Attribute::from_callback("onclick", c);
    let eb = e.map_callback(g3);
    assert!(eb.is_event());
}

#[test]
fn reform_preserves_classification() {
    let a: ValueAttr = Attribute::from_value("checked", Value::Bool(true));
    let b = a.reform(|raw: i32| raw + 1);
    assert!(b.is_value());
    assert!(!b.is_event());
    assert!(!b.is_func_call());

    let f: ValueAttr = Attribute {
        name: "value",
        value: AttribValue::FuncCall(Value::UInt(3)),
        namespace: None,
    };
    let fb = f.reform(|raw: i32| raw + 1);
    assert!(fb.is_func_call());

    let c = Callback::from_func(|e: i32| e * 2);
    let e = Attribute::from_callback("onclick", c);
    let eb = e.reform(|raw: i32| raw + 1);
    assert!(eb.is_event());
}

#[test]
fn transforms_keep_name_namespace_and_value() {
    let g = Callback::from_func(|m: i32| m - 1);
    let mut a: ValueAttr = Attribute::from_value("href", Value::Text(String::from("x")));
    a.namespace = Some(String::from("xlink"));
    let b = a.map_callback(g);
    assert_eq!(b.name, "href");
    assert_eq!(b.namespace, Some(String::from("xlink")));
    assert_eq!(b.to_pretty_string(), r#"xlink:href="x""#);

    let c = b.reform(|raw: i32| raw + 1);
    assert_eq!(c.name, "href");
    assert_eq!(c.namespace, Some(String::from("xlink")));
    assert_eq!(c.to_pretty_string(), r#"xlink:href="x""#);
}

#[test]
fn attrib_value_accessors() {
    let v: AttribValue<i32, i32, NoCallback> = AttribValue::Value(Value::UInt(5));
    match v.get_value() {
        Some(Value::UInt(n)) => assert_eq!(*n, 5),
        _ => panic!("expected the stored value"),
    }
    assert!(v.get_callback().is_none());
    assert!(v.take_callback().is_none());

    let cb = Callback::from_func(|e: i32| e + 1);
    let w = AttribValue::Callback(cb);
    assert!(w.get_value().is_none());
    assert!(w.get_callback().is_some());
    let taken = w.take_callback().expect("a callback payload yields its callback");
    assert_eq!(taken.emit(0), 1);
}

#[test]
fn attrib_value_render() {
    let v: AttribValue<i32, i32, NoCallback> = AttribValue::Value(Value::Text(String::from("t")));
    assert_eq!(v.render(), "t");
    let f: AttribValue<i32, i32, NoCallback> = AttribValue::FuncCall(Value::Text(String::from("t")));
    assert_eq!(f.render(), "");
    let cb = Callback::from_func(|e: i32| e + 1);
    let w = AttribValue::Callback(cb);
    assert_eq!(w.render(), "");
}

#[test]
fn attrib_value_from_conversions() {
    let v: AttribValue<i32, i32, NoCallback> = AttribValue::from(Value::Bool(true));
    assert!(matches!(v, AttribValue::Value(Value::Bool(true))));
    let cb = Callback::from_func(|e: i32| e + 1);
    let w = AttribValue::from(cb);
    assert!(matches!(w, AttribValue::Callback(_)));
}
