use sd_worker::decimal::{append_decimal, append_digits};
use sd_worker::sdapi::{get_json_body, prompt_for, SDApi, BATCH_SIZE, ENDPOINT, MEDIA_TYPE};
use serde_json::{Number, Value};

fn expected_payload(prompt: &str, count: u16) -> Value {
    let mut fields = serde_json::Map::new();
    fields.insert("enable_hr".to_string(), Value::Bool(false));
    fields.insert("denoising_strength".to_string(), Value::from(0));
    fields.insert("firstphase_width".to_string(), Value::from(0));
    fields.insert("firstphase_height".to_string(), Value::from(0));
    fields.insert("hr_scale".to_string(), Value::from(2));
    fields.insert("hr_upscaler".to_string(), Value::from(""));
    fields.insert("hr_second_pass_steps".to_string(), Value::from(0));
    fields.insert("hr_resize_x".to_string(), Value::from(0));
    fields.insert("hr_resize_y".to_string(), Value::from(0));
    fields.insert("prompt".to_string(), Value::from(prompt));
    fields.insert("styles".to_string(), Value::Array(Vec::new()));
    fields.insert("seed".to_string(), Value::from(-1));
    fields.insert("subseed".to_string(), Value::from(-1));
    fields.insert("subseed_strength".to_string(), Value::from(0));
    fields.insert("seed_resize_from_h".to_string(), Value::from(-1));
    fields.insert("seed_resize_from_w".to_string(), Value::from(-1));
    fields.insert("sampler_name".to_string(), Value::from("DPM++ 2M Karras"));
    fields.insert("batch_size".to_string(), Value::from(count));
    fields.insert("n_iter".to_string(), Value::from(1));
    fields.insert("steps".to_string(), Value::from(30));
    fields.insert("cfg_scale".to_string(), Value::from(10));
    fields.insert("width".to_string(), Value::from(768));
    fields.insert("height".to_string(), Value::from(768));
    fields.insert("restore_faces".to_string(), Value::Bool(false));
    fields.insert("tiling".to_string(), Value::Bool(false));
    fields.insert("do_not_save_samples".to_string(), Value::Bool(false));
    fields.insert("do_not_save_grid".to_string(), Value::Bool(false));
    fields.insert(
        "negative_prompt".to_string(),
        Value::from(
            " (worst quality, low quality:1.3), logo, watermark, signature, text,easynegative",
        ),
    );
    fields.insert("eta".to_string(), Value::Number(Number::from_f64(0.68).unwrap()));
    fields.insert("s_churn".to_string(), Value::from(0));
    fields.insert("s_tmax".to_string(), Value::from(0));
    fields.insert("ENSD".to_string(), Value::from(31337));
    fields.insert("s_tmin".to_string(), Value::from(0));
    fields.insert("s_noise".to_string(), Value::from(1));
    fields.insert("override_settings".to_string(), Value::Object(serde_json::Map::new()));
    fields.insert("override_settings_restore_afterwards".to_string(), Value::Bool(true));
    fields.insert("script_args".to_string(), Value::Array(Vec::new()));
    fields.insert("sampler_index".to_string(), Value::from("DDIM"));
    fields.insert("script_name".to_string(), Value::from(""));
    fields.insert("send_images".to_string(), Value::Bool(true));
    fields.insert("save_images".to_string(), Value::Bool(false));
    fields.insert("alwayson_scripts".to_string(), Value::Object(serde_json::Map::new()));
    Value::Object(fields)
}

#[test]
fn prompt_gets_the_prefix() {
    assert_eq!(prompt_for("a cat"), "ultra detailed 8k cg,a cat");
    assert_eq!(prompt_for(""), "ultra detailed 8k cg,");
}

#[test]
fn body_holds_every_field() {
    let body = get_json_body("a cat", 4);
    let parsed: Value = serde_json::from_str(&body).unwrap();
    assert_eq!(parsed, expected_payload("ultra detailed 8k cg,a cat", 4));
    assert_eq!(parsed.as_object().unwrap().len(), 42);
}

#[test]
fn body_is_the_text_that_serde_json_writes() {
    let body = get_json_body("a cat", 4);
    assert_eq!(body, expected_payload("ultra detailed 8k cg,a cat", 4).to_string());
}

#[test]
fn body_prompt_is_prefix_then_tag() {
    let body = get_json_body("a cat", 4);
    let parsed: Value = serde_json::from_str(&body).unwrap();
    assert_eq!(parsed["prompt"], Value::from("ultra detailed 8k cg,a cat"));
    assert_eq!(parsed["eta"].as_f64(), Some(0.68));
    assert_eq!(parsed["batch_size"].as_u64(), Some(4));
}

#[test]
fn body_escapes_the_prompt() {
    let prompt = "say \"hi\"\\ \n\ttab \u{1} caf\u{e9} \u{732b} \u{1f431}";
    let body = get_json_body(prompt, 4);
    let parsed: Value = serde_json::from_str(&body).unwrap();
    let mut full = String::from("ultra detailed 8k cg,");
    full.push_str(prompt);
    assert_eq!(parsed, expected_payload(&full, 4));
    assert_eq!(body, expected_payload(&full, 4).to_string());
}

#[test]
fn body_carries_the_count() {
    for count in [0u16, 1, 4, 9, 10, 99, 100, 12345, 65535] {
        let body = get_json_body("x", count);
        let parsed: Value = serde_json::from_str(&body).unwrap();
        assert_eq!(parsed["batch_size"].as_u64(), Some(count as u64));
        assert_eq!(parsed, expected_payload("ultra detailed 8k cg,x", count));
    }
}

#[test]
fn request_is_a_json_post_to_the_backend() {
    let request = SDApi::init().request("a cat");
    assert_eq!(request.url, "http://127.0.0.1:7860/sdapi/v1/txt2img");
    assert_eq!(request.url, ENDPOINT);
    assert_eq!(request.content_type, "application/json");
    assert_eq!(request.accept, "application/json");
    assert_eq!(request.content_type, MEDIA_TYPE);
    assert_eq!(request.body, get_json_body("a cat", 4));
    assert_eq!(BATCH_SIZE, 4);
}

#[test]
fn digits_are_decimal() {
    for n in [0u64, 7, 10, 42, 100, 1_000_000, 9_999_999_999, u64::MAX] {
        let mut out = String::from("n=");
        append_digits(&mut out, n);
        assert_eq!(out, format!("n={}", n));
    }
}

#[test]
fn decimal_has_a_sign_for_negatives() {
    for n in [0i64, 1, -1, 9, -9, 10, -10, 30, 1234567890123, i64::MAX, i64::MIN, i64::MIN + 1] {
        let mut out = String::new();
        append_decimal(&mut out, n);
        assert_eq!(out, format!("{}", n));
    }
    let mut out = String::new();
    append_decimal(&mut out, i64::MIN);
    assert_eq!(out, "-9223372036854775808");
}
