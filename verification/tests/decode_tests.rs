use imagebot::decode::strip_frame;
use imagebot::embed::{avatar_response, field_or_no_info, first_image, purrbot_image_result};
use imagebot::errors::FetchError;
use imagebot::numerals::{i16_to_dec, u64_to_dec};

#[test]
fn strip_frame_unwraps_shibe_payload() {
    let payload = "[\"https://cdn.shibe.online/shibes/abc.jpg\"]";
    let inner = strip_frame(payload).unwrap();
    assert_eq!(inner, "https://cdn.shibe.online/shibes/abc.jpg");
}

#[test]
fn strip_frame_of_bare_frames_is_empty() {
    assert_eq!(strip_frame("[\"\"]").unwrap(), "");
}

#[test]
fn strip_frame_counts_characters_not_bytes() {
    assert_eq!(strip_frame("[\"čšž\"]").unwrap(), "čšž");
}

#[test]
fn strip_frame_rejects_short_payloads() {
    assert_eq!(strip_frame(""), Err(FetchError::MalformedBody));
    assert_eq!(strip_frame("[\"]"), Err(FetchError::MalformedBody));
}

#[test]
fn field_or_no_info_keeps_present_values() {
    assert_eq!(field_or_no_info(Some(String::from("Shiba Inu"))), "Shiba Inu");
}

#[test]
fn field_or_no_info_defaults_absent_values() {
    assert_eq!(field_or_no_info(None), "No Info");
}

#[test]
fn first_image_picks_the_first_listing_entry() {
    let urls = vec![
        String::from("https://cdn.example/1.png"),
        String::from("https://cdn.example/2.png"),
    ];
    let result = first_image(urls).unwrap();
    assert_eq!(result.url, "https://cdn.example/1.png");
    assert!(result.fields.is_empty());
}

#[test]
fn first_image_rejects_an_empty_listing() {
    assert!(matches!(first_image(Vec::new()), Err(FetchError::MalformedBody)));
}

#[test]
fn purrbot_result_carries_response_time_field() {
    let result = purrbot_image_result(String::from("https://purrbot.site/img/n.gif"), 52);
    assert_eq!(result.url, "https://purrbot.site/img/n.gif");
    assert_eq!(result.fields.len(), 1);
    assert_eq!(result.fields[0].name, "API Response Time");
    assert_eq!(result.fields[0].value, "52");
}

#[test]
fn avatar_response_prefers_the_known_url() {
    assert_eq!(
        avatar_response(Some(String::from("https://cdn.example/a.png"))),
        "https://cdn.example/a.png"
    );
}

#[test]
fn avatar_response_reports_a_missing_avatar() {
    assert_eq!(avatar_response(None), "Error getting user avatar");
}

#[test]
fn decimal_rendering_is_exact() {
    assert_eq!(u64_to_dec(0), "0");
    assert_eq!(u64_to_dec(7), "7");
    assert_eq!(u64_to_dec(1234567890), "1234567890");
    assert_eq!(u64_to_dec(u64::MAX), "18446744073709551615");
    assert_eq!(i16_to_dec(-120), "-120");
    assert_eq!(i16_to_dec(0), "0");
}
