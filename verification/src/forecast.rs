//! The forecast data model and the rendering of a reply line.
//!
//! A forecast arrives as loosely structured text fields; every field is
//! optional, and each access degrades to a documented default — `N/A`
//! for missing text, `Unknown` for a missing description, zero for a
//! missing or unparseable number — rather than failing. Rendering
//! produces one line: current conditions, tomorrow, and the day after,
//! decorated with temperature-band colour codes and condition glyphs.

use vstd::prelude::*;
use vstd::string::StringExecFns;
use crate::numparse::spec_i32_or_zero;
use crate::numparse::parse_i32_or_zero;
use crate::strutil::spec_int_digits;
use crate::strutil::i32_to_string;

verus! {

/// What the current-conditions record carries.
pub struct CurrentConditions {
    pub temp_f: Option<String>,
    pub temp_c: Option<String>,
    pub humidity: Option<String>,
    pub desc: Option<String>,
    pub code: Option<String>,
}

/// A day's outlook: the high and low temperatures.
pub struct DayOutlook {
    pub max_f: Option<String>,
    pub min_f: Option<String>,
}

/// A day's noon record.
pub struct NoonForecast {
    pub temp_f: Option<String>,
    pub temp_c: Option<String>,
    pub humidity: Option<String>,
    pub desc: Option<String>,
    pub code: Option<String>,
}

/// A whole forecast, with every field optional.
pub struct ForecastData {
    pub area_name: Option<String>,
    pub current: CurrentConditions,
    pub today: DayOutlook,
    pub tomorrow: DayOutlook,
    pub tomorrow_noon: NoonForecast,
    pub day_after: DayOutlook,
    pub day_after_noon: NoonForecast,
}

/// A text field, or its documented default.
pub open spec fn spec_opt_text(o: Option<String>, default: Seq<char>) -> Seq<char> {
    match o {
        Some(s) => s@,
        None => default,
    }
}

/// A numeric field: missing or unparseable counts as zero.
pub open spec fn spec_opt_i32(o: Option<String>) -> int {
    match o {
        Some(s) => spec_i32_or_zero(s@),
        None => 0,
    }
}

/// The glyph for a temperature band.
pub open spec fn spec_temp_emoji(t: int) -> Seq<char> {
    if t > 85 {
        "\u{f8ff}\u{fc}\u{2022}\u{b5} "@
    } else if t >= 70 {
        "\u{f8ff}\u{fc}\u{f2}\u{e9}\u{d4}\u{220f}\u{e8} "@
    } else if t < 32 {
        "\u{f8ff}\u{fc}\u{2022}\u{2202}\u{d4}\u{220f}\u{e8} "@
    } else {
        "\u{f8ff}\u{fc}\u{df}\u{2022}\u{d4}\u{220f}\u{e8} "@
    }
}

/// The colour code for a temperature band.
pub open spec fn spec_temp_color(t: int) -> Seq<char> {
    if t > 85 {
        "04"@
    } else if t > 70 {
        "07"@
    } else if t < 32 {
        "12"@
    } else {
        "03"@
    }
}

/// The glyph for a condition code.
pub open spec fn spec_condition_emoji(code: int) -> Seq<char> {
    if code == 113 {
        "\u{201a}\u{f2}\u{c4}\u{d4}\u{220f}\u{e8}"@
    } else if code == 116 {
        "\u{201a}\u{f5}\u{d6}\u{d4}\u{220f}\u{e8}"@
    } else if code == 119 || code == 122 {
        "\u{201a}\u{f2}\u{c5}\u{d4}\u{220f}\u{e8}"@
    } else if code == 143 || code == 248 || code == 260 {
        "\u{f8ff}\u{fc}\u{e5}\u{b4}\u{d4}\u{220f}\u{e8}"@
    } else if code == 176 || code == 179 || code == 182 || code == 185 || code == 263 || code == 266
        || code == 281 || code == 284 || code == 293 || code == 296 || code == 299 || code == 302
        || code == 305 || code == 308 || code == 311 || code == 314 || code == 317 || code == 350
        || code == 353 || code == 359 || code == 362 || code == 365 || code == 374 || code == 377 {
        "\u{f8ff}\u{fc}\u{e5}\u{df}\u{d4}\u{220f}\u{e8}"@
    } else if code == 200 || code == 386 || code == 389 {
        "\u{f8ff}\u{fc}\u{e5}\u{a9}\u{d4}\u{220f}\u{e8}\u{f8ff}\u{fc}\u{e5}\u{df}\u{d4}\u{220f}\u{e8}"@
    } else if code == 392 {
        "\u{f8ff}\u{fc}\u{e5}\u{a9}\u{d4}\u{220f}\u{e8}\u{f8ff}\u{fc}\u{e5}\u{ae}\u{d4}\u{220f}\u{e8}"@
    } else if code == 227 || code == 320 || code == 323 || code == 326 || code == 368 {
        "\u{f8ff}\u{fc}\u{e5}\u{ae}\u{d4}\u{220f}\u{e8}"@
    } else if code == 230 || code == 329 || code == 332 || code == 335 || code == 338 || code == 371
        || code == 395 {
        "\u{f8ff}\u{fc}\u{e5}\u{ae}\u{d4}\u{220f}\u{e8}\u{201a}\u{f9}\u{d1}\u{d4}\u{220f}\u{e8}"@
    } else {
        "\u{201a}\u{fa}\u{ae}"@
    }
}

/// The current-conditions segment of the reply.
pub open spec fn spec_current_line(c: CurrentConditions, today: DayOutlook) -> Seq<char> {
    let t = spec_opt_i32(c.temp_f);
    let tc = spec_opt_i32(c.temp_c);
    let code = spec_opt_i32(c.code);
    let hi = spec_opt_i32(today.max_f);
    let lo = spec_opt_i32(today.min_f);
    "Conditions: "@ + spec_condition_emoji(code) + " \u{3}"@ + spec_temp_color(t) + spec_opt_text(
        c.desc,
        "Unknown"@,
    ) + ". Humidity: "@ + spec_opt_text(c.humidity, "N/A"@) + "%. Temp: "@ + spec_temp_emoji(t)
        + "\u{3}"@ + spec_temp_color(t) + spec_int_digits(t) + "\u{b0}F "@ + spec_int_digits(tc)
        + "C\u{f}. High: "@ + spec_temp_emoji(hi) + "\u{3}"@ + spec_temp_color(hi)
        + spec_int_digits(hi) + "\u{b0}F\u{f}. Low: "@ + spec_temp_emoji(lo) + "\u{3}"@
        + spec_temp_color(lo) + spec_int_digits(lo) + "\u{b0}F\u{f}"@
}

/// A later day's segment of the reply: the noon record framed by the
/// day's high and low.
pub open spec fn spec_day_line(out: DayOutlook, noon: NoonForecast) -> Seq<char> {
    let t = spec_opt_i32(noon.temp_f);
    let tc = spec_opt_i32(noon.temp_c);
    let code = spec_opt_i32(noon.code);
    let hi = spec_opt_i32(out.max_f);
    let lo = spec_opt_i32(out.min_f);
    "Conditions: "@ + spec_condition_emoji(code) + spec_opt_text(noon.desc, "Unknown"@)
        + ". Humidity: "@ + spec_opt_text(noon.humidity, "N/A"@) + "%. Noon: "@ + spec_temp_emoji(t)
        + "\u{3}"@ + spec_temp_color(t) + spec_int_digits(t) + "\u{b0}F "@ + spec_int_digits(tc)
        + "C\u{f}. High: "@ + spec_temp_emoji(hi) + "\u{3}"@ + spec_temp_color(hi)
        + spec_int_digits(hi) + "\u{b0}F\u{f}. Low: "@ + spec_temp_emoji(lo) + "\u{3}"@
        + spec_temp_color(lo) + spec_int_digits(lo) + "\u{b0}F\u{f}"@
}

/// The whole reply body: the area name (or the query, when the area is
/// missing), then the three day segments.
pub open spec fn spec_format_response(f: ForecastData, query: Seq<char>) -> Seq<char> {
    spec_opt_text(f.area_name, query) + ": "@ + spec_current_line(f.current, f.today)
        + " | Tomorrow: "@ + spec_day_line(f.tomorrow, f.tomorrow_noon) + " | Day After: "@
        + spec_day_line(f.day_after, f.day_after_noon)
}

fn opt_str<'a>(o: &'a Option<String>, default: &'a str) -> (r: &'a str)
    ensures
        r@ == spec_opt_text(*o, default@),
{
    match o {
        Some(s) => s.as_str(),
        None => default,
    }
}

fn opt_i32(o: &Option<String>) -> (r: i32)
    ensures
        r as int == spec_opt_i32(*o),
{
    match o {
        Some(s) => parse_i32_or_zero(s.as_str()),
        None => 0,
    }
}

pub fn temp_emoji(t: i32) -> (r: &'static str)
    ensures
        r@ == spec_temp_emoji(t as int),
{
    if t > 85 {
        "\u{f8ff}\u{fc}\u{2022}\u{b5} "
    } else if t >= 70 {
        "\u{f8ff}\u{fc}\u{f2}\u{e9}\u{d4}\u{220f}\u{e8} "
    } else if t < 32 {
        "\u{f8ff}\u{fc}\u{2022}\u{2202}\u{d4}\u{220f}\u{e8} "
    } else {
        "\u{f8ff}\u{fc}\u{df}\u{2022}\u{d4}\u{220f}\u{e8} "
    }
}

pub fn temp_color(t: i32) -> (r: &'static str)
    ensures
        r@ == spec_temp_color(t as int),
{
    if t > 85 {
        "04"
    } else if t > 70 {
        "07"
    } else if t < 32 {
        "12"
    } else {
        "03"
    }
}

pub fn condition_emoji(code: i32) -> (r: &'static str)
    ensures
        r@ == spec_condition_emoji(code as int),
{
    if code == 113 {
        "\u{201a}\u{f2}\u{c4}\u{d4}\u{220f}\u{e8}"
    } else if code == 116 {
        "\u{201a}\u{f5}\u{d6}\u{d4}\u{220f}\u{e8}"
    } else if code == 119 || code == 122 {
        "\u{201a}\u{f2}\u{c5}\u{d4}\u{220f}\u{e8}"
    } else if code == 143 || code == 248 || code == 260 {
        "\u{f8ff}\u{fc}\u{e5}\u{b4}\u{d4}\u{220f}\u{e8}"
    } else if code == 176 || code == 179 || code == 182 || code == 185 || code == 263 || code == 266
        || code == 281 || code == 284 || code == 293 || code == 296 || code == 299 || code == 302
        || code == 305 || code == 308 || code == 311 || code == 314 || code == 317 || code == 350
        || code == 353 || code == 359 || code == 362 || code == 365 || code == 374 || code == 377 {
        "\u{f8ff}\u{fc}\u{e5}\u{df}\u{d4}\u{220f}\u{e8}"
    } else if code == 200 || code == 386 || code == 389 {
        "\u{f8ff}\u{fc}\u{e5}\u{a9}\u{d4}\u{220f}\u{e8}\u{f8ff}\u{fc}\u{e5}\u{df}\u{d4}\u{220f}\u{e8}"
    } else if code == 392 {
        "\u{f8ff}\u{fc}\u{e5}\u{a9}\u{d4}\u{220f}\u{e8}\u{f8ff}\u{fc}\u{e5}\u{ae}\u{d4}\u{220f}\u{e8}"
    } else if code == 227 || code == 320 || code == 323 || code == 326 || code == 368 {
        "\u{f8ff}\u{fc}\u{e5}\u{ae}\u{d4}\u{220f}\u{e8}"
    } else if code == 230 || code == 329 || code == 332 || code == 335 || code == 338 || code == 371
        || code == 395 {
        "\u{f8ff}\u{fc}\u{e5}\u{ae}\u{d4}\u{220f}\u{e8}\u{201a}\u{f9}\u{d1}\u{d4}\u{220f}\u{e8}"
    } else {
        "\u{201a}\u{fa}\u{ae}"
    }
}

fn current_line(c: &CurrentConditions, today: &DayOutlook) -> (r: String)
    ensures
        r@ == spec_current_line(*c, *today),
{
    let t = opt_i32(&c.temp_f);
    let tc = opt_i32(&c.temp_c);
    let code = opt_i32(&c.code);
    let hi = opt_i32(&today.max_f);
    let lo = opt_i32(&today.min_f);
    let mut s = String::new();
    s.append("Conditions: ");
    s.append(condition_emoji(code));
    s.append(" \u{3}");
    s.append(temp_color(t));
    s.append(opt_str(&c.desc, "Unknown"));
    s.append(". Humidity: ");
    s.append(opt_str(&c.humidity, "N/A"));
    s.append("%. Temp: ");
    s.append(temp_emoji(t));
    s.append("\u{3}");
    s.append(temp_color(t));
    let ts = i32_to_string(t);
    s.append(ts.as_str());
    s.append("\u{b0}F ");
    let tcs = i32_to_string(tc);
    s.append(tcs.as_str());
    s.append("C\u{f}. High: ");
    s.append(temp_emoji(hi));
    s.append("\u{3}");
    s.append(temp_color(hi));
    let his = i32_to_string(hi);
    s.append(his.as_str());
    s.append("\u{b0}F\u{f}. Low: ");
    s.append(temp_emoji(lo));
    s.append("\u{3}");
    s.append(temp_color(lo));
    let los = i32_to_string(lo);
    s.append(los.as_str());
    s.append("\u{b0}F\u{f}");
    s
}

fn day_line(out: &DayOutlook, noon: &NoonForecast) -> (r: String)
    ensures
        r@ == spec_day_line(*out, *noon),
{
    let t = opt_i32(&noon.temp_f);
    let tc = opt_i32(&noon.temp_c);
    let code = opt_i32(&noon.code);
    let hi = opt_i32(&out.max_f);
    let lo = opt_i32(&out.min_f);
    let mut s = String::new();
    s.append("Conditions: ");
    s.append(condition_emoji(code));
    s.append(opt_str(&noon.desc, "Unknown"));
    s.append(". Humidity: ");
    s.append(opt_str(&noon.humidity, "N/A"));
    s.append("%. Noon: ");
    s.append(temp_emoji(t));
    s.append("\u{3}");
    s.append(temp_color(t));
    let ts = i32_to_string(t);
    s.append(ts.as_str());
    s.append("\u{b0}F ");
    let tcs = i32_to_string(tc);
    s.append(tcs.as_str());
    s.append("C\u{f}. High: ");
    s.append(temp_emoji(hi));
    s.append("\u{3}");
    s.append(temp_color(hi));
    let his = i32_to_string(hi);
    s.append(his.as_str());
    s.append("\u{b0}F\u{f}. Low: ");
    s.append(temp_emoji(lo));
    s.append("\u{3}");
    s.append(temp_color(lo));
    let los = i32_to_string(lo);
    s.append(los.as_str());
    s.append("\u{b0}F\u{f}");
    s
}

/// Renders a forecast into the reply body, falling back to `query` when
/// the area name is missing.
pub fn format_response(f: &ForecastData, query: &str) -> (r: String)
    ensures
        r@ == spec_format_response(*f, query@),
{
    let mut s = String::new();
    s.append(opt_str(&f.area_name, query));
    s.append(": ");
    let cur = current_line(&f.current, &f.today);
    s.append(cur.as_str());
    s.append(" | Tomorrow: ");
    let tom = day_line(&f.tomorrow, &f.tomorrow_noon);
    s.append(tom.as_str());
    s.append(" | Day After: ");
    let da = day_line(&f.day_after, &f.day_after_noon);
    s.append(da.as_str());
    s
}

} // verus!
