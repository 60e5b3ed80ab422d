//! Weather data: the shapes the weather provider returns, a validity
//! check on the response status, and the indented report rendering that
//! the tool call embeds in its reply.

use vstd::prelude::*;
use vstd::string::StringExecFns;
use crate::text::{escaped, push_escaped, str_eq_str};

verus! {

/// One day's forecast entry.
pub struct Cast {
    pub date: String,
    pub week: String,
    pub dayweather: String,
    pub nightweather: String,
    pub daytemp: String,
    pub nighttemp: String,
    pub daywind: String,
    pub nightwind: String,
    pub daypower: String,
    pub nightpower: String,
    pub daytemp_float: String,
    pub nighttemp_float: String,
}

pub struct CastV {
    pub date: Seq<char>,
    pub week: Seq<char>,
    pub dayweather: Seq<char>,
    pub nightweather: Seq<char>,
    pub daytemp: Seq<char>,
    pub nighttemp: Seq<char>,
    pub daywind: Seq<char>,
    pub nightwind: Seq<char>,
    pub daypower: Seq<char>,
    pub nightpower: Seq<char>,
    pub daytemp_float: Seq<char>,
    pub nighttemp_float: Seq<char>,
}

impl View for Cast {
    type V = CastV;

    open spec fn view(&self) -> CastV {
        CastV {
            date: self.date@,
            week: self.week@,
            dayweather: self.dayweather@,
            nightweather: self.nightweather@,
            daytemp: self.daytemp@,
            nighttemp: self.nighttemp@,
            daywind: self.daywind@,
            nightwind: self.nightwind@,
            daypower: self.daypower@,
            nightpower: self.nightpower@,
            daytemp_float: self.daytemp_float@,
            nighttemp_float: self.nighttemp_float@,
        }
    }
}

/// The forecast series for one city.
pub struct Forecast {
    pub city: String,
    pub adcode: String,
    pub province: String,
    pub reporttime: String,
    pub casts: Vec<Cast>,
}

pub struct ForecastV {
    pub city: Seq<char>,
    pub adcode: Seq<char>,
    pub province: Seq<char>,
    pub reporttime: Seq<char>,
    pub casts: Seq<CastV>,
}

impl View for Forecast {
    type V = ForecastV;

    open spec fn view(&self) -> ForecastV {
        ForecastV {
            city: self.city@,
            adcode: self.adcode@,
            province: self.province@,
            reporttime: self.reporttime@,
            casts: self.casts@.map_values(|c: Cast| c@),
        }
    }
}

/// A whole weather provider response.
pub struct WeatherResponse {
    pub status: String,
    pub count: String,
    pub info: String,
    pub infocode: String,
    pub forecasts: Vec<Forecast>,
}

pub struct WeatherResponseV {
    pub status: Seq<char>,
    pub count: Seq<char>,
    pub info: Seq<char>,
    pub infocode: Seq<char>,
    pub forecasts: Seq<ForecastV>,
}

impl View for WeatherResponse {
    type V = WeatherResponseV;

    open spec fn view(&self) -> WeatherResponseV {
        WeatherResponseV {
            status: self.status@,
            count: self.count@,
            info: self.info@,
            infocode: self.infocode@,
            forecasts: self.forecasts@.map_values(|f: Forecast| f@),
        }
    }
}

/// Whether the provider reported success: its status field is `"1"`.
pub fn weather_response_ok(w: &WeatherResponse) -> (r: bool)
    ensures
        r == (w.status@ == "1"@),
{
    str_eq_str(w.status.as_str(), "1")
}

/// The report rendering of one forecast day, indented as an element of
/// the casts array.
pub open spec fn cast_report_v(c: CastV) -> Seq<char> {
    "        {\n          \"date\": \""@ + escaped(c.date) + "\",\n          \"week\": \""@
        + escaped(c.week) + "\",\n          \"dayweather\": \""@ + escaped(c.dayweather)
        + "\",\n          \"nightweather\": \""@ + escaped(c.nightweather)
        + "\",\n          \"daytemp\": \""@ + escaped(c.daytemp)
        + "\",\n          \"nighttemp\": \""@ + escaped(c.nighttemp)
        + "\",\n          \"daywind\": \""@ + escaped(c.daywind)
        + "\",\n          \"nightwind\": \""@ + escaped(c.nightwind)
        + "\",\n          \"daypower\": \""@ + escaped(c.daypower)
        + "\",\n          \"nightpower\": \""@ + escaped(c.nightpower)
        + "\",\n          \"daytemp_float\": \""@ + escaped(c.daytemp_float)
        + "\",\n          \"nighttemp_float\": \""@ + escaped(c.nighttemp_float)
        + "\"\n        }"@
}

/// The comma-separated report renderings of forecast days.
pub open spec fn cast_items_v(cs: Seq<CastV>) -> Seq<char>
    decreases cs.len(),
{
    if cs.len() == 0 {
        Seq::empty()
    } else if cs.len() == 1 {
        cast_report_v(cs[0])
    } else {
        cast_items_v(cs.drop_last()) + ",\n"@ + cast_report_v(cs.last())
    }
}

/// The report rendering of a casts array.
pub open spec fn casts_report_v(cs: Seq<CastV>) -> Seq<char> {
    if cs.len() == 0 {
        "[]"@
    } else {
        "[\n"@ + cast_items_v(cs) + "\n      ]"@
    }
}

/// The report rendering of one city's forecast series, indented as an
/// element of the forecasts array.
pub open spec fn forecast_report_v(f: ForecastV) -> Seq<char> {
    "    {\n      \"city\": \""@ + escaped(f.city) + "\",\n      \"adcode\": \""@ + escaped(
        f.adcode,
    ) + "\",\n      \"province\": \""@ + escaped(f.province)
        + "\",\n      \"reporttime\": \""@ + escaped(f.reporttime) + "\",\n      \"casts\": "@
        + casts_report_v(f.casts) + "\n    }"@
}

/// The comma-separated report renderings of forecast series.
pub open spec fn forecast_items_v(fs: Seq<ForecastV>) -> Seq<char>
    decreases fs.len(),
{
    if fs.len() == 0 {
        Seq::empty()
    } else if fs.len() == 1 {
        forecast_report_v(fs[0])
    } else {
        forecast_items_v(fs.drop_last()) + ",\n"@ + forecast_report_v(fs.last())
    }
}

/// The report rendering of a forecasts array.
pub open spec fn forecasts_report_v(fs: Seq<ForecastV>) -> Seq<char> {
    if fs.len() == 0 {
        "[]"@
    } else {
        "[\n"@ + forecast_items_v(fs) + "\n  ]"@
    }
}

/// The whole weather report: the response as an indented JSON document,
/// two spaces per level.
pub open spec fn weather_report_v(w: WeatherResponseV) -> Seq<char> {
    "{\n  \"status\": \""@ + escaped(w.status) + "\",\n  \"count\": \""@ + escaped(w.count)
        + "\",\n  \"info\": \""@ + escaped(w.info) + "\",\n  \"infocode\": \""@ + escaped(
        w.infocode,
    ) + "\",\n  \"forecasts\": "@ + forecasts_report_v(w.forecasts) + "\n}"@
}

/// The compact rendering of one forecast day.
pub open spec fn cast_json_v(c: CastV) -> Seq<char> {
    "{\"date\":\""@ + escaped(c.date) + "\",\"week\":\""@ + escaped(c.week)
        + "\",\"dayweather\":\""@ + escaped(c.dayweather) + "\",\"nightweather\":\""@ + escaped(
        c.nightweather,
    ) + "\",\"daytemp\":\""@ + escaped(c.daytemp) + "\",\"nighttemp\":\""@ + escaped(c.nighttemp)
        + "\",\"daywind\":\""@ + escaped(c.daywind) + "\",\"nightwind\":\""@ + escaped(
        c.nightwind,
    ) + "\",\"daypower\":\""@ + escaped(c.daypower) + "\",\"nightpower\":\""@ + escaped(
        c.nightpower,
    ) + "\",\"daytemp_float\":\""@ + escaped(c.daytemp_float) + "\",\"nighttemp_float\":\""@
        + escaped(c.nighttemp_float) + "\"}"@
}

/// The comma-separated compact renderings of forecast days.
pub open spec fn cast_json_items_v(cs: Seq<CastV>) -> Seq<char>
    decreases cs.len(),
{
    if cs.len() == 0 {
        Seq::empty()
    } else if cs.len() == 1 {
        cast_json_v(cs[0])
    } else {
        cast_json_items_v(cs.drop_last()) + ","@ + cast_json_v(cs.last())
    }
}

/// The compact rendering of one city's forecast series.
pub open spec fn forecast_json_v(f: ForecastV) -> Seq<char> {
    "{\"city\":\""@ + escaped(f.city) + "\",\"adcode\":\""@ + escaped(f.adcode)
        + "\",\"province\":\""@ + escaped(f.province) + "\",\"reporttime\":\""@ + escaped(
        f.reporttime,
    ) + "\",\"casts\":["@ + cast_json_items_v(f.casts) + "]}"@
}

/// The comma-separated compact renderings of forecast series.
pub open spec fn forecast_json_items_v(fs: Seq<ForecastV>) -> Seq<char>
    decreases fs.len(),
{
    if fs.len() == 0 {
        Seq::empty()
    } else if fs.len() == 1 {
        forecast_json_v(fs[0])
    } else {
        forecast_json_items_v(fs.drop_last()) + ","@ + forecast_json_v(fs.last())
    }
}

/// The whole response as one compact JSON document.
pub open spec fn weather_json_v(w: WeatherResponseV) -> Seq<char> {
    "{\"status\":\""@ + escaped(w.status) + "\",\"count\":\""@ + escaped(w.count)
        + "\",\"info\":\""@ + escaped(w.info) + "\",\"infocode\":\""@ + escaped(w.infocode)
        + "\",\"forecasts\":["@ + forecast_json_items_v(w.forecasts) + "]}"@
}

/// Appends the compact rendering of one forecast day.
fn push_cast_json(s: &mut String, c: &Cast)
    ensures
        final(s)@ == old(s)@ + cast_json_v(c@),
{
    s.append("{\"date\":\"");
    push_escaped(s, c.date.as_str());
    s.append("\",\"week\":\"");
    push_escaped(s, c.week.as_str());
    s.append("\",\"dayweather\":\"");
    push_escaped(s, c.dayweather.as_str());
    s.append("\",\"nightweather\":\"");
    push_escaped(s, c.nightweather.as_str());
    s.append("\",\"daytemp\":\"");
    push_escaped(s, c.daytemp.as_str());
    s.append("\",\"nighttemp\":\"");
    push_escaped(s, c.nighttemp.as_str());
    s.append("\",\"daywind\":\"");
    push_escaped(s, c.daywind.as_str());
    s.append("\",\"nightwind\":\"");
    push_escaped(s, c.nightwind.as_str());
    s.append("\",\"daypower\":\"");
    push_escaped(s, c.daypower.as_str());
    s.append("\",\"nightpower\":\"");
    push_escaped(s, c.nightpower.as_str());
    s.append("\",\"daytemp_float\":\"");
    push_escaped(s, c.daytemp_float.as_str());
    s.append("\",\"nighttemp_float\":\"");
    push_escaped(s, c.nighttemp_float.as_str());
    s.append("\"}");
    assert(final(s)@ =~= old(s)@ + cast_json_v(c@));
}

/// Appends the compact rendering of one city's forecast series.
fn push_forecast_json(s: &mut String, f: &Forecast)
    ensures
        final(s)@ == old(s)@ + forecast_json_v(f@),
{
    let ghost vs = f.casts@.map_values(|c: Cast| c@);
    s.append("{\"city\":\"");
    push_escaped(s, f.city.as_str());
    s.append("\",\"adcode\":\"");
    push_escaped(s, f.adcode.as_str());
    s.append("\",\"province\":\"");
    push_escaped(s, f.province.as_str());
    s.append("\",\"reporttime\":\"");
    push_escaped(s, f.reporttime.as_str());
    s.append("\",\"casts\":[");
    let ghost head = s@;
    let n = f.casts.len();
    let mut i: usize = 0;
    while i < n
        invariant
            n == f.casts@.len(),
            vs == f.casts@.map_values(|c: Cast| c@),
            i <= n,
            s@ == head + cast_json_items_v(vs.take(i as int)),
        decreases n - i,
    {
        proof {
            assert(vs.take(i + 1 as int).drop_last() =~= vs.take(i as int));
            assert(vs.take(i + 1 as int).last() == vs[i as int]);
            assert(vs[i as int] == f.casts@[i as int]@);
            if i == 0 {
                assert(cast_json_items_v(vs.take(1)) == cast_json_v(vs[0]));
            }
        }
        if i > 0 {
            s.append(",");
        }
        push_cast_json(s, &f.casts[i]);
        proof {
            assert(s@ =~= head + cast_json_items_v(vs.take(i + 1 as int)));
        }
        i += 1;
    }
    s.append("]}");
    proof {
        assert(vs.take(n as int) =~= vs);
        assert(final(s)@ =~= old(s)@ + forecast_json_v(f@));
    }
}

/// Renders a weather response as one compact JSON document.
pub fn weather_json(w: &WeatherResponse) -> (r: String)
    ensures
        r@ == weather_json_v(w@),
{
    let ghost vs = w.forecasts@.map_values(|f: Forecast| f@);
    let mut s = String::new();
    s.append("{\"status\":\"");
    push_escaped(&mut s, w.status.as_str());
    s.append("\",\"count\":\"");
    push_escaped(&mut s, w.count.as_str());
    s.append("\",\"info\":\"");
    push_escaped(&mut s, w.info.as_str());
    s.append("\",\"infocode\":\"");
    push_escaped(&mut s, w.infocode.as_str());
    s.append("\",\"forecasts\":[");
    let ghost head = s@;
    let n = w.forecasts.len();
    let mut i: usize = 0;
    while i < n
        invariant
            n == w.forecasts@.len(),
            vs == w.forecasts@.map_values(|f: Forecast| f@),
            i <= n,
            s@ == head + forecast_json_items_v(vs.take(i as int)),
        decreases n - i,
    {
        proof {
            assert(vs.take(i + 1 as int).drop_last() =~= vs.take(i as int));
            assert(vs.take(i + 1 as int).last() == vs[i as int]);
            assert(vs[i as int] == w.forecasts@[i as int]@);
            if i == 0 {
                assert(forecast_json_items_v(vs.take(1)) == forecast_json_v(vs[0]));
            }
        }
        if i > 0 {
            s.append(",");
        }
        push_forecast_json(&mut s, &w.forecasts[i]);
        proof {
            assert(s@ =~= head + forecast_json_items_v(vs.take(i + 1 as int)));
        }
        i += 1;
    }
    s.append("]}");
    proof {
        assert(vs.take(n as int) =~= vs);
        assert(s@ =~= weather_json_v(w@));
    }
    s
}

/// Appends the report rendering of one forecast day.
fn push_cast_report(s: &mut String, c: &Cast)
    ensures
        final(s)@ == old(s)@ + cast_report_v(c@),
{
    s.append("        {\n          \"date\": \"");
    push_escaped(s, c.date.as_str());
    s.append("\",\n          \"week\": \"");
    push_escaped(s, c.week.as_str());
    s.append("\",\n          \"dayweather\": \"");
    push_escaped(s, c.dayweather.as_str());
    s.append("\",\n          \"nightweather\": \"");
    push_escaped(s, c.nightweather.as_str());
    s.append("\",\n          \"daytemp\": \"");
    push_escaped(s, c.daytemp.as_str());
    s.append("\",\n          \"nighttemp\": \"");
    push_escaped(s, c.nighttemp.as_str());
    s.append("\",\n          \"daywind\": \"");
    push_escaped(s, c.daywind.as_str());
    s.append("\",\n          \"nightwind\": \"");
    push_escaped(s, c.nightwind.as_str());
    s.append("\",\n          \"daypower\": \"");
    push_escaped(s, c.daypower.as_str());
    s.append("\",\n          \"nightpower\": \"");
    push_escaped(s, c.nightpower.as_str());
    s.append("\",\n          \"daytemp_float\": \"");
    push_escaped(s, c.daytemp_float.as_str());
    s.append("\",\n          \"nighttemp_float\": \"");
    push_escaped(s, c.nighttemp_float.as_str());
    s.append("\"\n        }");
    assert(final(s)@ =~= old(s)@ + cast_report_v(c@));
}

/// Appends the report rendering of a casts array.
fn push_casts_report(s: &mut String, cs: &Vec<Cast>)
    ensures
        final(s)@ == old(s)@ + casts_report_v(cs@.map_values(|c: Cast| c@)),
{
    let ghost vs = cs@.map_values(|c: Cast| c@);
    let n = cs.len();
    if n == 0 {
        s.append("[]");
        return ;
    }
    s.append("[\n");
    let mut i: usize = 0;
    while i < n
        invariant
            1 <= n == cs@.len(),
            vs == cs@.map_values(|c: Cast| c@),
            i <= n,
            s@ == old(s)@ + "[\n"@ + cast_items_v(vs.take(i as int)),
        decreases n - i,
    {
        proof {
            assert(vs.take(i + 1 as int).drop_last() =~= vs.take(i as int));
            assert(vs.take(i + 1 as int).last() == vs[i as int]);
            assert(vs[i as int] == cs@[i as int]@);
            if i == 0 {
                assert(cast_items_v(vs.take(1)) == cast_report_v(vs[0]));
            }
        }
        if i > 0 {
            s.append(",\n");
        }
        push_cast_report(s, &cs[i]);
        proof {
            assert(s@ =~= old(s)@ + "[\n"@ + cast_items_v(vs.take(i + 1 as int)));
        }
        i += 1;
    }
    s.append("\n      ]");
    proof {
        assert(vs.take(n as int) =~= vs);
        assert(final(s)@ =~= old(s)@ + casts_report_v(vs));
    }
}

/// Appends the report rendering of one city's forecast series.
fn push_forecast_report(s: &mut String, f: &Forecast)
    ensures
        final(s)@ == old(s)@ + forecast_report_v(f@),
{
    s.append("    {\n      \"city\": \"");
    push_escaped(s, f.city.as_str());
    s.append("\",\n      \"adcode\": \"");
    push_escaped(s, f.adcode.as_str());
    s.append("\",\n      \"province\": \"");
    push_escaped(s, f.province.as_str());
    s.append("\",\n      \"reporttime\": \"");
    push_escaped(s, f.reporttime.as_str());
    s.append("\",\n      \"casts\": ");
    push_casts_report(s, &f.casts);
    s.append("\n    }");
    assert(final(s)@ =~= old(s)@ + forecast_report_v(f@));
}

/// Renders a weather response as an indented JSON report.
pub fn weather_report(w: &WeatherResponse) -> (r: String)
    ensures
        r@ == weather_report_v(w@),
{
    let ghost vs = w.forecasts@.map_values(|f: Forecast| f@);
    let mut s = String::new();
    s.append("{\n  \"status\": \"");
    push_escaped(&mut s, w.status.as_str());
    s.append("\",\n  \"count\": \"");
    push_escaped(&mut s, w.count.as_str());
    s.append("\",\n  \"info\": \"");
    push_escaped(&mut s, w.info.as_str());
    s.append("\",\n  \"infocode\": \"");
    push_escaped(&mut s, w.infocode.as_str());
    s.append("\",\n  \"forecasts\": ");
    let ghost head = s@;
    let n = w.forecasts.len();
    if n == 0 {
        s.append("[]");
        proof {
            assert(s@ =~= head + forecasts_report_v(vs));
        }
    } else {
        s.append("[\n");
        let mut i: usize = 0;
        while i < n
            invariant
                1 <= n == w.forecasts@.len(),
                vs == w.forecasts@.map_values(|f: Forecast| f@),
                i <= n,
                s@ == head + "[\n"@ + forecast_items_v(vs.take(i as int)),
            decreases n - i,
        {
            proof {
                assert(vs.take(i + 1 as int).drop_last() =~= vs.take(i as int));
                assert(vs.take(i + 1 as int).last() == vs[i as int]);
                assert(vs[i as int] == w.forecasts@[i as int]@);
                if i == 0 {
                    assert(forecast_items_v(vs.take(1)) == forecast_report_v(vs[0]));
                }
            }
            if i > 0 {
                s.append(",\n");
            }
            push_forecast_report(&mut s, &w.forecasts[i]);
            proof {
                assert(s@ =~= head + "[\n"@ + forecast_items_v(vs.take(i + 1 as int)));
            }
            i += 1;
        }
        s.append("\n  ]");
        proof {
            assert(vs.take(n as int) =~= vs);
            assert(s@ =~= head + forecasts_report_v(vs));
        }
    }
    s.append("\n}");
    proof {
        assert(s@ =~= weather_report_v(w@));
    }
    s
}

} // verus!
