use f3d::options::OptionError;
use f3d::options::Options;

#[test]
fn bool_round_trip() {
    let mut o = Options::new();
    o.set_bool(b"render.grid.enable", true).unwrap();
    assert_eq!(o.get_bool(b"render.grid.enable"), Ok(true));
    o.set_bool(b"render.grid.enable", false).unwrap();
    assert_eq!(o.get_bool(b"render.grid.enable"), Ok(false));
}

#[test]
fn int_round_trip_including_zero_and_negative() {
    let mut o = Options::new();
    o.set_int(b"scene.animation.index", 0).unwrap();
    assert_eq!(o.get_int(b"scene.animation.index"), Ok(0));
    o.set_int(b"scene.animation.index", -7).unwrap();
    assert_eq!(o.get_int(b"scene.animation.index"), Ok(-7));
    o.set_int(b"scene.animation.index", i32::MAX).unwrap();
    assert_eq!(o.get_int(b"scene.animation.index"), Ok(i32::MAX));
    o.set_int(b"scene.animation.index", i32::MIN).unwrap();
    assert_eq!(o.get_int(b"scene.animation.index"), Ok(i32::MIN));
}

#[test]
fn double_bits_round_trip() {
    let mut o = Options::new();
    let v = -12.75f64;
    o.set_double_bits(b"render.line_width", v.to_bits()).unwrap();
    let bits = o.get_double_bits(b"render.line_width").unwrap();
    assert_eq!(f64::from_bits(bits), v);
}

#[test]
fn string_round_trip_including_long_text() {
    let mut o = Options::new();
    o.set_string(b"ui.font_file", b"").unwrap();
    assert_eq!(o.get_string(b"ui.font_file"), Ok(Vec::new()));
    let long: Vec<u8> = (0..4096u32).map(|i| b'a' + (i % 26) as u8).collect();
    o.set_string(b"ui.font_file", &long).unwrap();
    assert_eq!(o.get_string(b"ui.font_file"), Ok(long));
}

#[test]
fn int_array_round_trip_including_empty() {
    let mut o = Options::new();
    o.set_int_array(b"render.raytracing.samples", Vec::new()).unwrap();
    assert_eq!(o.get_int_array(b"render.raytracing.samples"), Ok(Vec::new()));
    o.set_int_array(b"render.raytracing.samples", vec![1, -2, 3]).unwrap();
    assert_eq!(o.get_int_array(b"render.raytracing.samples"), Ok(vec![1, -2, 3]));
}

#[test]
fn double_array_bits_round_trip_including_empty() {
    let mut o = Options::new();
    o.set_double_array_bits(b"render.background.color", Vec::new()).unwrap();
    assert_eq!(o.get_double_array_bits(b"render.background.color"), Ok(Vec::new()));
    let bits: Vec<u64> = [0.1f64, 0.2, 0.3].iter().map(|v| v.to_bits()).collect();
    o.set_double_array_bits(b"render.background.color", bits.clone()).unwrap();
    assert_eq!(o.get_double_array_bits(b"render.background.color"), Ok(bits));
}

#[test]
fn missing_key_is_not_found() {
    let o = Options::new();
    assert_eq!(o.get_bool(b"nothing.here"), Err(OptionError::NotFound));
    assert_eq!(o.get_int(b"nothing.here"), Err(OptionError::NotFound));
    assert_eq!(o.get_string(b"nothing.here"), Err(OptionError::NotFound));
}

#[test]
fn wrong_type_is_type_mismatch_not_not_found() {
    let mut o = Options::new();
    o.set_double_bits(b"render.line_width", (2.0f64).to_bits()).unwrap();
    assert_eq!(o.get_int(b"render.line_width"), Err(OptionError::TypeMismatch));
    assert_eq!(o.get_bool(b"render.line_width"), Err(OptionError::TypeMismatch));
    // the value survives the failed reads
    assert_eq!(o.get_double_bits(b"render.line_width"), Ok((2.0f64).to_bits()));
}

#[test]
fn key_with_terminator_is_rejected_and_store_untouched() {
    let mut o = Options::new();
    o.set_int(b"good.key", 5).unwrap();
    assert_eq!(o.set_int(b"bad\0key", 9), Err(OptionError::EmbeddedTerminator));
    assert_eq!(o.get_int(b"good.key"), Ok(5));
}

#[test]
fn setting_one_key_leaves_others_alone() {
    let mut o = Options::new();
    o.set_bool(b"a", true).unwrap();
    o.set_int(b"b", 3).unwrap();
    o.set_bool(b"a", false).unwrap();
    assert_eq!(o.get_int(b"b"), Ok(3));
    assert_eq!(o.get_bool(b"a"), Ok(false));
}

#[test]
fn retyping_a_key_replaces_its_value() {
    let mut o = Options::new();
    o.set_bool(b"k", true).unwrap();
    o.set_int(b"k", 12).unwrap();
    assert_eq!(o.get_bool(b"k"), Err(OptionError::TypeMismatch));
    assert_eq!(o.get_int(b"k"), Ok(12));
}

#[test]
fn string_representation_exact_values() {
    let mut o = Options::new();
    o.set_bool(b"b1", true).unwrap();
    o.set_bool(b"b0", false).unwrap();
    o.set_int(b"i", -123).unwrap();
    o.set_int(b"z", 0).unwrap();
    o.set_int(b"min", i32::MIN).unwrap();
    o.set_string(b"s", b"plain text").unwrap();
    o.set_int_array(b"arr", vec![10, -2, 0]).unwrap();
    o.set_int_array(b"one", vec![7]).unwrap();
    o.set_int_array(b"none", Vec::new()).unwrap();
    assert_eq!(o.get_string_representation(b"b1"), Ok(b"true".to_vec()));
    assert_eq!(o.get_string_representation(b"b0"), Ok(b"false".to_vec()));
    assert_eq!(o.get_string_representation(b"i"), Ok(b"-123".to_vec()));
    assert_eq!(o.get_string_representation(b"z"), Ok(b"0".to_vec()));
    assert_eq!(o.get_string_representation(b"min"), Ok(b"-2147483648".to_vec()));
    assert_eq!(o.get_string_representation(b"s"), Ok(b"plain text".to_vec()));
    assert_eq!(o.get_string_representation(b"arr"), Ok(b"10,-2,0".to_vec()));
    assert_eq!(o.get_string_representation(b"one"), Ok(b"7".to_vec()));
    assert_eq!(o.get_string_representation(b"none"), Ok(Vec::new()));
    assert_eq!(o.get_string_representation(b"gone"), Err(OptionError::NotFound));
}

#[test]
fn string_representation_of_doubles_belongs_to_the_host() {
    let mut o = Options::new();
    o.set_double_bits(b"d", (1.5f64).to_bits()).unwrap();
    assert_eq!(o.get_string_representation(b"d"), Err(OptionError::TypeMismatch));
}
