use sycadrop::strmap::StrMap;
use sycadrop::transfer::DATA_KEY;
use sycadrop::AsTransfer;
use sycadrop::DataTransfer;
use sycadrop::FromTransfer;
use sycadrop::RawTransfer;

#[test]
fn strmap_set_then_get_returns_the_value() {
    let mut m = StrMap::new();
    m.set("text/html", "3");
    assert_eq!(m.get("text/html"), Some("3".to_string()));
}

#[test]
fn strmap_get_of_missing_key_is_none() {
    let mut m = StrMap::new();
    m.set("text/html", "3");
    assert_eq!(m.get("text/plain"), None);
}

#[test]
fn strmap_set_replaces_an_earlier_binding() {
    let mut m = StrMap::new();
    m.set("text/html", "3");
    m.set("text/html", "4");
    assert_eq!(m.get("text/html"), Some("4".to_string()));
}

#[test]
fn strmap_remove_takes_a_binding_out() {
    let mut m = StrMap::new();
    m.set("a", "1");
    m.set("b", "2");
    m.remove("a");
    assert_eq!(m.get("a"), None);
    assert_eq!(m.get("b"), Some("2".to_string()));
}

#[test]
fn strmap_remove_of_missing_key_changes_nothing() {
    let mut m = StrMap::new();
    m.set("a", "1");
    m.remove("b");
    assert_eq!(m.get("a"), Some("1".to_string()));
}

#[test]
fn strmap_clone_carries_the_bindings() {
    let mut m = StrMap::new();
    m.set("a", "1");
    let c = m.clone();
    assert_eq!(c.get("a"), Some("1".to_string()));
    assert_eq!(c.get("b"), None);
}

#[test]
fn fresh_transfer_is_uninitialized_and_empty() {
    let t = DataTransfer::new();
    assert_eq!(t.effect_allowed(), "uninitialized".to_string());
    assert_eq!(t.get_data(DATA_KEY), None);
}

#[test]
fn transfer_set_data_then_get_data_round_trips() {
    let mut t = DataTransfer::new();
    t.set_data("text/html", "7");
    assert_eq!(t.get_data("text/html"), Some("7".to_string()));
    assert_eq!(t.get_data("text/plain"), None);
}

#[test]
fn transfer_set_effect_allowed_is_read_back() {
    let mut t = DataTransfer::new();
    t.set_effect_allowed("move");
    assert_eq!(t.effect_allowed(), "move".to_string());
}

#[test]
fn transfer_clone_carries_data_and_effect() {
    let mut t = DataTransfer::new();
    t.set_data("text/html", "7");
    t.set_effect_allowed("copy");
    let c = t.clone();
    assert_eq!(c.get_data("text/html"), Some("7".to_string()));
    assert_eq!(c.effect_allowed(), "copy".to_string());
}

#[test]
fn string_payload_write_then_read_round_trips() {
    let mut t = DataTransfer::new();
    let payload = "{\"id\":3}".to_string();
    payload.write_to_transfer(&mut t);
    let back: Option<String> = FromTransfer::from_transfer(&t);
    assert_eq!(back, Some("{\"id\":3}".to_string()));
}

#[test]
fn unit_payload_writes_null() {
    let mut t = DataTransfer::new();
    ().write_to_transfer(&mut t);
    assert_eq!(t.get_data(DATA_KEY), Some("null".to_string()));
}

#[test]
fn string_read_of_empty_transfer_is_none() {
    let t = DataTransfer::new();
    let back: Option<String> = FromTransfer::from_transfer(&t);
    assert_eq!(back, None);
}

#[test]
fn raw_transfer_wraps_the_whole_transfer() {
    let mut t = DataTransfer::new();
    t.set_data("text/html", "9");
    let raw: Option<RawTransfer> = FromTransfer::from_transfer(&t);
    let raw = raw.expect("the passthrough always reads");
    assert_eq!(raw.transfer().get_data("text/html"), Some("9".to_string()));
}

#[test]
fn data_key_is_the_fixed_payload_format() {
    assert_eq!(DATA_KEY, "data/json");
}
