use weatherbot::forecast::condition_emoji;
use weatherbot::forecast::format_response;
use weatherbot::forecast::temp_color;
use weatherbot::forecast::temp_emoji;
use weatherbot::forecast::CurrentConditions;
use weatherbot::forecast::DayOutlook;
use weatherbot::forecast::ForecastData;
use weatherbot::forecast::NoonForecast;
use weatherbot::numparse::parse_i32_or_zero;
use weatherbot::strutil::i32_to_string;

#[test]
fn parse_accepts_plain_decimals() {
    assert_eq!(parse_i32_or_zero("72"), 72);
    assert_eq!(parse_i32_or_zero("0"), 0);
    assert_eq!(parse_i32_or_zero("-5"), -5);
    assert_eq!(parse_i32_or_zero("+17"), 17);
}

#[test]
fn parse_falls_back_to_zero() {
    assert_eq!(parse_i32_or_zero("N/A"), 0);
    assert_eq!(parse_i32_or_zero(""), 0);
    assert_eq!(parse_i32_or_zero("12x"), 0);
    assert_eq!(parse_i32_or_zero("-"), 0);
    assert_eq!(parse_i32_or_zero(" 3"), 0);
}

#[test]
fn parse_respects_the_32_bit_range() {
    assert_eq!(parse_i32_or_zero("2147483647"), 2147483647);
    assert_eq!(parse_i32_or_zero("2147483648"), 0);
    assert_eq!(parse_i32_or_zero("-2147483648"), -2147483648);
    assert_eq!(parse_i32_or_zero("-2147483649"), 0);
    assert_eq!(parse_i32_or_zero("99999999999999999999"), 0);
}

#[test]
fn decimal_rendering_round_trips() {
    assert_eq!(i32_to_string(0), "0");
    assert_eq!(i32_to_string(7), "7");
    assert_eq!(i32_to_string(-12), "-12");
    assert_eq!(i32_to_string(2147483647), "2147483647");
    assert_eq!(i32_to_string(-2147483648), "-2147483648");
    assert_eq!(parse_i32_or_zero(&i32_to_string(-40)), -40);
}

#[test]
fn temperature_bands_pick_glyph_and_colour() {
    assert_eq!(temp_emoji(86), "\u{f8ff}\u{fc}\u{2022}\u{b5} ");
    assert_eq!(temp_emoji(85), "\u{f8ff}\u{fc}\u{f2}\u{e9}\u{d4}\u{220f}\u{e8} ");
    assert_eq!(temp_emoji(70), "\u{f8ff}\u{fc}\u{f2}\u{e9}\u{d4}\u{220f}\u{e8} ");
    assert_eq!(temp_emoji(69), "\u{f8ff}\u{fc}\u{df}\u{2022}\u{d4}\u{220f}\u{e8} ");
    assert_eq!(temp_emoji(32), "\u{f8ff}\u{fc}\u{df}\u{2022}\u{d4}\u{220f}\u{e8} ");
    assert_eq!(temp_emoji(31), "\u{f8ff}\u{fc}\u{2022}\u{2202}\u{d4}\u{220f}\u{e8} ");
    assert_eq!(temp_color(86), "04");
    assert_eq!(temp_color(85), "07");
    assert_eq!(temp_color(71), "07");
    // the colour band for the seventies differs from the glyph band: 70
    // itself is not "orange"
    assert_eq!(temp_color(70), "03");
    assert_eq!(temp_color(32), "03");
    assert_eq!(temp_color(31), "12");
}

#[test]
fn condition_codes_pick_glyphs() {
    assert_eq!(condition_emoji(113), "\u{201a}\u{f2}\u{c4}\u{d4}\u{220f}\u{e8}");
    assert_eq!(condition_emoji(116), "\u{201a}\u{f5}\u{d6}\u{d4}\u{220f}\u{e8}");
    assert_eq!(condition_emoji(122), "\u{201a}\u{f2}\u{c5}\u{d4}\u{220f}\u{e8}");
    assert_eq!(condition_emoji(248), "\u{f8ff}\u{fc}\u{e5}\u{b4}\u{d4}\u{220f}\u{e8}");
    assert_eq!(condition_emoji(296), "\u{f8ff}\u{fc}\u{e5}\u{df}\u{d4}\u{220f}\u{e8}");
    assert_eq!(
        condition_emoji(389),
        "\u{f8ff}\u{fc}\u{e5}\u{a9}\u{d4}\u{220f}\u{e8}\u{f8ff}\u{fc}\u{e5}\u{df}\u{d4}\u{220f}\u{e8}"
    );
    assert_eq!(
        condition_emoji(392),
        "\u{f8ff}\u{fc}\u{e5}\u{a9}\u{d4}\u{220f}\u{e8}\u{f8ff}\u{fc}\u{e5}\u{ae}\u{d4}\u{220f}\u{e8}"
    );
    assert_eq!(condition_emoji(368), "\u{f8ff}\u{fc}\u{e5}\u{ae}\u{d4}\u{220f}\u{e8}");
    assert_eq!(
        condition_emoji(395),
        "\u{f8ff}\u{fc}\u{e5}\u{ae}\u{d4}\u{220f}\u{e8}\u{201a}\u{f9}\u{d1}\u{d4}\u{220f}\u{e8}"
    );
    assert_eq!(condition_emoji(0), "\u{201a}\u{fa}\u{ae}");
    assert_eq!(condition_emoji(999), "\u{201a}\u{fa}\u{ae}");
}

fn empty_current() -> CurrentConditions {
    CurrentConditions { temp_f: None, temp_c: None, humidity: None, desc: None, code: None }
}

fn empty_outlook() -> DayOutlook {
    DayOutlook { max_f: None, min_f: None }
}

fn empty_noon() -> NoonForecast {
    NoonForecast { temp_f: None, temp_c: None, humidity: None, desc: None, code: None }
}

#[test]
fn missing_fields_render_with_defaults() {
    let f = ForecastData {
        area_name: None,
        current: empty_current(),
        today: empty_outlook(),
        tomorrow: empty_outlook(),
        tomorrow_noon: empty_noon(),
        day_after: empty_outlook(),
        day_after_noon: empty_noon(),
    };
    let r = format_response(&f, "10001,+USA");
    let unknown_glyph = "\u{201a}\u{fa}\u{ae}";
    let cold_glyph = "\u{f8ff}\u{fc}\u{2022}\u{2202}\u{d4}\u{220f}\u{e8} ";
    let day = format!(
        "Conditions: {g}Unknown. Humidity: N/A%. Noon: {e}\u{3}120\u{b0}F 0C\u{f}. \
        High: {e}\u{3}120\u{b0}F\u{f}. Low: {e}\u{3}120\u{b0}F\u{f}",
        g = unknown_glyph,
        e = cold_glyph
    );
    let expected = format!(
        "10001,+USA: Conditions: {g} \u{3}12Unknown. Humidity: N/A%. Temp: \
        {e}\u{3}120\u{b0}F 0C\u{f}. High: {e}\u{3}120\u{b0}F\u{f}. Low: {e}\u{3}120\u{b0}F\u{f} \
        | Tomorrow: {day} | Day After: {day}",
        g = unknown_glyph,
        e = cold_glyph,
        day = day
    );
    assert_eq!(r, expected);
}

#[test]
fn full_fields_render_their_values() {
    let f = ForecastData {
        area_name: Some("Mountain View".to_string()),
        current: CurrentConditions {
            temp_f: Some("72".to_string()),
            temp_c: Some("22".to_string()),
            humidity: Some("45".to_string()),
            desc: Some("Sunny".to_string()),
            code: Some("113".to_string()),
        },
        today: DayOutlook { max_f: Some("88".to_string()), min_f: Some("55".to_string()) },
        tomorrow: DayOutlook { max_f: Some("75".to_string()), min_f: Some("60".to_string()) },
        tomorrow_noon: NoonForecast {
            temp_f: Some("71".to_string()),
            temp_c: Some("21".to_string()),
            humidity: Some("50".to_string()),
            desc: Some("Cloudy".to_string()),
            code: Some("119".to_string()),
        },
        day_after: DayOutlook { max_f: Some("30".to_string()), min_f: Some("20".to_string()) },
        day_after_noon: NoonForecast {
            temp_f: Some("25".to_string()),
            temp_c: Some("-4".to_string()),
            humidity: Some("80".to_string()),
            desc: Some("Snow".to_string()),
            code: Some("368".to_string()),
        },
    };
    let r = format_response(&f, "fallback");
    assert!(r.starts_with("Mountain View: Conditions: "));
    // current segment: 72F is the sunny-but-mild band, high 88 the hot one
    assert!(r.contains("Sunny. Humidity: 45%. Temp: "));
    assert!(r.contains("\u{3}0772\u{b0}F 22C\u{f}. High: "));
    assert!(r.contains("\u{3}0488\u{b0}F\u{f}. Low: "));
    assert!(r.contains(" | Tomorrow: Conditions: "));
    assert!(r.contains("Cloudy. Humidity: 50%. Noon: "));
    assert!(r.contains(" | Day After: Conditions: "));
    assert!(r.contains("\u{3}1225\u{b0}F -4C\u{f}. High: "));
}
