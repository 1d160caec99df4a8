//! Reading the parts of a game from configuration documents.

use crate::config::{spec_document, ConfigError, ConfigValue, ConfigView};
use crate::economy::par_track::{ParTrack, ParTrackView};
use crate::economy::stock_chart::{StockChart, StockChartView};
use crate::geography::hex::{Content, ContentView, Hex, HexView};
use crate::geography::map::{GameMap, MapView};
use crate::geography::rail::{Rail, RailView};
use crate::geography::stops::{City, CityView, Location, LocationView, Stop, StopView};
use crate::geography::tile::{Tile, TileView};
use crate::geography::tile_set::{tile_place_from, TileSet};
use crate::ids::{ColorId, PrivComId, PubComId, TerrainId, TrainId};
use crate::train_set::TrainSet;
use vstd::prelude::*;

verus! {

/// The entry with the key `key` of a table, or the error for a table without it.
pub open spec fn spec_field(doc: ConfigView, key: &'static str) -> Result<ConfigView, ConfigError> {
    match doc.get(key@) {
        Some(value) => Ok(value),
        None => Err(ConfigError::Missing(key)),
    }
}

/// The items of an array, or the error for a value named `what` that is none.
pub open spec fn spec_items(value: ConfigView, what: &'static str) -> Result<Seq<ConfigView>, ConfigError> {
    match value {
        ConfigView::Array(items) => Ok(items),
        _ => Err(ConfigError::WrongType(what, "Array")),
    }
}

/// The integer that a value is, or the error for a value named `what` that is none.
pub open spec fn spec_integer(value: ConfigView, what: &'static str) -> Result<i64, ConfigError> {
    match value {
        ConfigView::Integer(i) => Ok(i),
        _ => Err(ConfigError::WrongType(what, "Integer")),
    }
}

/// The text that a value is, or the error for a value named `what` that is none.
pub open spec fn spec_text(value: ConfigView, what: &'static str) -> Result<Seq<char>, ConfigError> {
    match value {
        ConfigView::Text(text) => Ok(text),
        _ => Err(ConfigError::WrongType(what, "String")),
    }
}

/// The first `n` items as integers, cut to 32 bits, or the error for the
/// first that is no integer.
pub open spec fn spec_numbers(items: Seq<ConfigView>, what: &'static str, n: int) -> Result<
    Seq<u32>,
    ConfigError,
>
    decreases n,
{
    if n <= 0 {
        Ok(Seq::empty())
    } else {
        match spec_numbers(items, what, n - 1) {
            Ok(numbers) => match spec_integer(items[n - 1], what) {
                Ok(i) => Ok(numbers.push(i as u32)),
                Err(e) => Err(e),
            },
            Err(e) => Err(e),
        }
    }
}

/// Returns the entry with the key `key` of a table
pub fn field<'a>(doc: &'a ConfigValue, key: &'static str) -> (r: Result<&'a ConfigValue, ConfigError>)
    ensures
        match spec_field(doc@, key) {
            Ok(value) => r matches Ok(found) && found@ == value,
            Err(e) => r == Err::<&ConfigValue, ConfigError>(e),
        },
{
    match doc.get(key) {
        Some(value) => Ok(value),
        None => Err(ConfigError::Missing(key)),
    }
}

/// Returns the items of an array
pub fn items<'a>(value: &'a ConfigValue, what: &'static str) -> (r: Result<&'a Vec<ConfigValue>, ConfigError>)
    ensures
        match spec_items(value@, what) {
            Ok(items) => r matches Ok(v) && v@.len() == items.len() && forall|i: int|
                0 <= i < items.len() ==> (#[trigger] v@[i])@ == items[i],
            Err(e) => r == Err::<&Vec<ConfigValue>, ConfigError>(e),
        },
{
    match value.as_array() {
        Some(items) => Ok(items),
        None => Err(ConfigError::WrongType(what, "Array")),
    }
}

/// Returns the integer that a value is
pub fn integer(value: &ConfigValue, what: &'static str) -> (r: Result<i64, ConfigError>)
    ensures
        r == spec_integer(value@, what),
{
    match value.as_integer() {
        Some(i) => Ok(i),
        None => Err(ConfigError::WrongType(what, "Integer")),
    }
}

/// Returns the text that a value is
pub fn text<'a>(value: &'a ConfigValue, what: &'static str) -> (r: Result<&'a str, ConfigError>)
    ensures
        match spec_text(value@, what) {
            Ok(text) => r matches Ok(s) && s@ == text,
            Err(e) => r == Err::<&str, ConfigError>(e),
        },
{
    match value.as_str() {
        Some(text) => Ok(text),
        None => Err(ConfigError::WrongType(what, "String")),
    }
}

/// Returns the items of an array as integers, cut to 32 bits
pub fn numbers(items: &Vec<ConfigValue>, what: &'static str) -> (r: Result<Vec<u32>, ConfigError>)
    ensures
        match spec_numbers(views_of(items@), what, items@.len() as int) {
            Ok(numbers) => r matches Ok(v) && v@ == numbers,
            Err(e) => r == Err::<Vec<u32>, ConfigError>(e),
        },
{
    let ghost views = views_of(items@);
    let mut v: Vec<u32> = Vec::new();
    let mut i: usize = 0;
    while i < items.len()
        invariant
            i <= items.len(),
            views == views_of(items@),
            spec_numbers(views, what, i as int) == Ok::<Seq<u32>, ConfigError>(v@),
        decreases items.len() - i,
    {
        assert(views[i as int] == items@[i as int]@);
        match integer(&items[i], what) {
            Ok(number) => {
                v.push(#[verifier::truncate] (number as u32));
            },
            Err(e) => {
                proof {
                    lemma_numbers_err(views, what, i as int + 1, items@.len() as int);
                }
                return Err(e);
            },
        }
        i = i + 1;
    }
    Ok(v)
}

/// Once an item is no integer, so is the result for every longer part of the array.
pub proof fn lemma_numbers_err(items: Seq<ConfigView>, what: &'static str, n: int, m: int)
    requires
        n <= m,
        spec_numbers(items, what, n) is Err,
    ensures
        spec_numbers(items, what, m) == spec_numbers(items, what, n),
    decreases m - n,
{
    if n < m {
        lemma_numbers_err(items, what, n, m - 1);
    }
}

/// Every item that is read gives one number.
pub proof fn lemma_numbers_len(items: Seq<ConfigView>, what: &'static str, n: int)
    requires
        0 <= n,
    ensures
        spec_numbers(items, what, n) matches Ok(numbers) ==> numbers.len() == n,
    decreases n,
{
    if n > 0 {
        lemma_numbers_len(items, what, n - 1);
    }
}

/// The par track that a document describes: its `values` are the par values.
pub open spec fn spec_par_track(doc: ConfigView) -> Result<ParTrackView, ConfigError> {
    match spec_field(doc, "values") {
        Ok(values) => match spec_items(values, "values") {
            Ok(items) => match spec_numbers(items, "value", items.len() as int) {
                Ok(numbers) => if ParTrackView::values_placed(numbers) {
                    Ok(ParTrackView::new(numbers))
                } else {
                    Err(ConfigError::ParValues)
                },
                Err(e) => Err(e),
            },
            Err(e) => Err(e),
        },
        Err(e) => Err(e),
    }
}

impl ParTrack {
    /// Reads a par track from a configuration document
    pub fn from_config(doc: &ConfigValue) -> (r: Result<ParTrack, ConfigError>)
        ensures
            match spec_par_track(doc@) {
                Ok(track) => r matches Ok(read) && read@ == track && read@.wf() && read@.has_no_token(),
                Err(e) => r == Err::<ParTrack, ConfigError>(e),
            },
    {
        let values = field(doc, "values")?;
        let values = items(values, "values")?;
        assert(views_of(values@) =~= spec_items(spec_field(doc@, "values")->Ok_0, "values")->Ok_0);
        let values = numbers(values, "value")?;
        match ParTrack::new(values) {
            Some(track) => Ok(track),
            None => Err(ConfigError::ParValues),
        }
    }

    /// Reads a par track from the TOML data in `s`
    pub fn from_toml(s: &str) -> (r: Result<ParTrack, ConfigError>)
        ensures
            match spec_document(s) {
                Ok(doc) => match spec_par_track(doc) {
                    Ok(track) => r matches Ok(read) && read@ == track && read@.wf() && read@.has_no_token(),
                    Err(e) => r == Err::<ParTrack, ConfigError>(e),
                },
                Err(e) => r == Err::<ParTrack, ConfigError>(e),
            },
    {
        let doc = ConfigValue::parse(s)?;
        ParTrack::from_config(&doc)
    }
}

/// What the first `n` items are read as, each by `read`, or the error for
/// the first that cannot be read.
pub open spec fn spec_each<T>(
    items: Seq<ConfigView>,
    read: spec_fn(ConfigView) -> Result<T, ConfigError>,
    n: int,
) -> Result<Seq<T>, ConfigError>
    decreases n,
{
    if n <= 0 {
        Ok(Seq::empty())
    } else {
        match spec_each(items, read, n - 1) {
            Ok(parts) => match read(items[n - 1]) {
                Ok(part) => Ok(parts.push(part)),
                Err(e) => Err(e),
            },
            Err(e) => Err(e),
        }
    }
}

/// Once an item cannot be read, the error stays for every longer part of the array.
pub proof fn lemma_each_err<T>(
    items: Seq<ConfigView>,
    read: spec_fn(ConfigView) -> Result<T, ConfigError>,
    n: int,
    m: int,
)
    requires
        n <= m,
        spec_each(items, read, n) is Err,
    ensures
        spec_each(items, read, m) == spec_each(items, read, n),
    decreases m - n,
{
    if n < m {
        lemma_each_err(items, read, n, m - 1);
    }
}

/// The views of the items of an array.
pub open spec fn views_of(items: Seq<ConfigValue>) -> Seq<ConfigView> {
    Seq::new(items.len(), |i: int| items[i]@)
}

/// One column of a stock chart: an array of share values.
pub open spec fn spec_column(value: ConfigView) -> Result<Seq<u32>, ConfigError> {
    match spec_items(value, "values") {
        Ok(items) => spec_numbers(items, "value", items.len() as int),
        Err(e) => Err(e),
    }
}

/// Reads one column of a stock chart.
pub open spec fn column_reader() -> spec_fn(ConfigView) -> Result<Seq<u32>, ConfigError> {
    |v: ConfigView| spec_column(v)
}

/// The stock chart that a document describes: its `values` are the columns.
pub open spec fn spec_stock_chart(doc: ConfigView) -> Result<StockChartView, ConfigError> {
    match spec_field(doc, "values") {
        Ok(values) => match spec_items(values, "values") {
            Ok(items) => match spec_each(items, column_reader(), items.len() as int) {
                Ok(columns) => if StockChartView::has_start_fields(columns) {
                    Ok(StockChartView::new(columns))
                } else {
                    Err(ConfigError::StartFields)
                },
                Err(e) => Err(e),
            },
            Err(e) => Err(e),
        },
        Err(e) => Err(e),
    }
}

/// Returns one column of a stock chart
fn column(value: &ConfigValue) -> (r: Result<Vec<u32>, ConfigError>)
    ensures
        match spec_column(value@) {
            Ok(numbers) => r matches Ok(v) && v@ == numbers,
            Err(e) => r == Err::<Vec<u32>, ConfigError>(e),
        },
{
    let fields = items(value, "values")?;
    assert(views_of(fields@) =~= spec_items(value@, "values")->Ok_0);
    numbers(fields, "value")
}

impl StockChart {
    /// Reads a stock chart from a configuration document
    #[verifier::loop_isolation(false)]
    pub fn from_config(doc: &ConfigValue) -> (r: Result<StockChart, ConfigError>)
        ensures
            match spec_stock_chart(doc@) {
                Ok(chart) => r matches Ok(read) && read@ == chart && read@.wf() && read@.has_no_token(),
                Err(e) => r == Err::<StockChart, ConfigError>(e),
            },
    {
        let values = field(doc, "values")?;
        let values = items(values, "values")?;
        let ghost views = views_of(values@);
        let ghost read = column_reader();
        assert(views =~= spec_items(spec_field(doc@, "values")->Ok_0, "values")->Ok_0);
        let mut columns: Vec<Vec<u32>> = Vec::new();
        assert(columns.deep_view() =~= Seq::<Seq<u32>>::empty());
        let mut i: usize = 0;
        while i < values.len()
            invariant
                i <= values.len(),
                spec_each(views, read, i as int) == Ok::<Seq<Seq<u32>>, ConfigError>(columns.deep_view()),
            decreases values.len() - i,
        {
            assert(views[i as int] == values@[i as int]@);
            match column(&values[i]) {
                Ok(fields) => {
                    let ghost before = columns.deep_view();
                    columns.push(fields);
                    assert(columns.deep_view() =~~= before.push(fields@)) by {
                        broadcast use vstd::std_specs::vec::group_vec_axioms;

                    }
                },
                Err(e) => {
                    proof {
                        lemma_each_err(views, read, i as int + 1, values@.len() as int);
                    }
                    return Err(e);
                },
            }
            i = i + 1;
        }
        match StockChart::new(columns) {
            Some(chart) => Ok(chart),
            None => Err(ConfigError::StartFields),
        }
    }

    /// Reads a stock chart from the TOML data in `s`
    pub fn from_toml(s: &str) -> (r: Result<StockChart, ConfigError>)
        ensures
            match spec_document(s) {
                Ok(doc) => match spec_stock_chart(doc) {
                    Ok(chart) => r matches Ok(read) && read@ == chart && read@.wf() && read@.has_no_token(),
                    Err(e) => r == Err::<StockChart, ConfigError>(e),
                },
                Err(e) => r == Err::<StockChart, ConfigError>(e),
            },
    {
        let doc = ConfigValue::parse(s)?;
        StockChart::from_config(&doc)
    }
}

/// The integer with the key `key` of a table, with `what` as its name in errors.
pub open spec fn spec_integer_field(doc: ConfigView, key: &'static str) -> Result<i64, ConfigError> {
    match spec_field(doc, key) {
        Ok(value) => spec_integer(value, key),
        Err(e) => Err(e),
    }
}

/// Returns the integer with the key `key` of a table
pub fn integer_field(doc: &ConfigValue, key: &'static str) -> (r: Result<i64, ConfigError>)
    ensures
        r == spec_integer_field(doc@, key),
{
    let value = field(doc, key)?;
    integer(value, key)
}

/// The public company that a table names under `key`, if it has that key;
/// `what` is the name of the entry in errors.
pub open spec fn spec_optional_pub_com(doc: ConfigView, key: &'static str, what: &'static str) -> Result<
    Option<PubComId>,
    ConfigError,
> {
    match doc.get(key@) {
        Some(value) => match spec_text(value, what) {
            Ok(text) => match PubComId::spec_parse(text) {
                Some(pub_com) => Ok(Some(pub_com)),
                None => Err(ConfigError::Unparsable("PubComId")),
            },
            Err(e) => Err(e),
        },
        None => Ok(None),
    }
}

/// Returns the public company that a table names under `key`, if it has that key
pub fn optional_pub_com(doc: &ConfigValue, key: &'static str, what: &'static str) -> (r: Result<
    Option<PubComId>,
    ConfigError,
>)
    ensures
        r == spec_optional_pub_com(doc@, key, what),
{
    match doc.get(key) {
        Some(value) => {
            let name = text(value, what)?;
            match PubComId::parse(name) {
                Some(pub_com) => Ok(Some(pub_com)),
                None => Err(ConfigError::Unparsable("PubComId")),
            }
        },
        None => Ok(None),
    }
}

/// The city that a table describes: `value`, `spots`, and if it has them `name` and `home`.
pub open spec fn spec_city(doc: ConfigView) -> Result<CityView, ConfigError> {
    match spec_integer_field(doc, "value") {
        Ok(value) => match spec_integer_field(doc, "spots") {
            Ok(spots) => match doc.get("name"@) {
                Some(name) => match spec_text(name, "name") {
                    Ok(name) => match spec_optional_pub_com(doc, "home", "start") {
                        Ok(home) => Ok(CityView::new(value as u32, spots as usize, Some(name), home)),
                        Err(e) => Err(e),
                    },
                    Err(e) => Err(e),
                },
                None => match spec_optional_pub_com(doc, "home", "start") {
                    Ok(home) => Ok(CityView::new(value as u32, spots as usize, None, home)),
                    Err(e) => Err(e),
                },
            },
            Err(e) => Err(e),
        },
        Err(e) => Err(e),
    }
}

/// Reads a city.
pub open spec fn city_reader() -> spec_fn(ConfigView) -> Result<CityView, ConfigError> {
    |v: ConfigView| spec_city(v)
}

impl City {
    /// Reads a city from a configuration value
    pub fn from_toml(doc: &ConfigValue) -> (r: Result<City, ConfigError>)
        ensures
            match spec_city(doc@) {
                Ok(city) => r matches Ok(read) && read@ == city,
                Err(e) => r == Err::<City, ConfigError>(e),
            },
    {
        let value = integer_field(doc, "value")?;
        let spots = integer_field(doc, "spots")?;
        let name: Option<String> = match doc.get("name") {
            Some(name) => Some(text(name, "name")?.to_owned()),
            None => None,
        };
        let home = optional_pub_com(doc, "home", "start")?;
        Ok(City::new(#[verifier::truncate] (value as u32), #[verifier::truncate] (spots as usize), name, home))
    }
}

/// The off-board location that a table describes: four `values`, `name`,
/// and if it has it `home`.
pub open spec fn spec_location(doc: ConfigView) -> Result<LocationView, ConfigError> {
    match spec_field(doc, "values") {
        Ok(values) => match spec_items(values, "values") {
            Ok(items) => if items.len() != 4 {
                Err(ConfigError::ValuesLength)
            } else {
                match spec_numbers(items, "value", 4) {
                    Ok(numbers) => match spec_field(doc, "name") {
                        Ok(name) => match spec_text(name, "name") {
                            Ok(name) => match spec_optional_pub_com(doc, "home", "start") {
                                Ok(home) => Ok(LocationView::new(numbers, name, home)),
                                Err(e) => Err(e),
                            },
                            Err(e) => Err(e),
                        },
                        Err(e) => Err(e),
                    },
                    Err(e) => Err(e),
                }
            },
            Err(e) => Err(e),
        },
        Err(e) => Err(e),
    }
}

impl Location {
    /// Reads an off-board location from a configuration value
    pub fn from_toml(doc: &ConfigValue) -> (r: Result<Location, ConfigError>)
        ensures
            match spec_location(doc@) {
                Ok(location) => r matches Ok(read) && read@ == location,
                Err(e) => r == Err::<Location, ConfigError>(e),
            },
    {
        let values = field(doc, "values")?;
        let values = items(values, "values")?;
        if values.len() != 4 {
            return Err(ConfigError::ValuesLength);
        }
        assert(views_of(values@) =~= spec_items(spec_field(doc@, "values")->Ok_0, "values")->Ok_0);
        proof {
            lemma_numbers_len(views_of(values@), "value", 4);
        }
        let values = numbers(values, "value")?;
        let name = field(doc, "name")?;
        let name = text(name, "name")?.to_owned();
        let home = optional_pub_com(doc, "home", "start")?;
        let four: [u32; 4] = [values[0], values[1], values[2], values[3]];
        assert(four@ =~= values@);
        Ok(Location::new(four, name, home))
    }
}

/// The stop of a rail: the city under `city` if the table has one, else
/// the off-board location under `location`, if it has one. Both are read.
pub open spec fn spec_stop(doc: ConfigView) -> Result<Option<StopView>, ConfigError> {
    match doc.get("city"@) {
        Some(city) => match spec_city(city) {
            Ok(city) => match doc.get("location"@) {
                Some(location) => match spec_location(location) {
                    Ok(_) => Ok(Some(StopView::City(city))),
                    Err(e) => Err(e),
                },
                None => Ok(Some(StopView::City(city))),
            },
            Err(e) => Err(e),
        },
        None => match doc.get("location"@) {
            Some(location) => match spec_location(location) {
                Ok(location) => Ok(Some(StopView::Location(location))),
                Err(e) => Err(e),
            },
            None => Ok(None),
        },
    }
}

/// The rail that a table describes: `edges`, and if it has one a `city` or a `location`.
pub open spec fn spec_rail(doc: ConfigView) -> Result<RailView, ConfigError> {
    match spec_field(doc, "edges") {
        Ok(edges) => match spec_items(edges, "edges") {
            Ok(items) => match spec_numbers(items, "edge", items.len() as int) {
                Ok(edges) => match spec_stop(doc) {
                    Ok(stop) => Ok(RailView { edges, stop }),
                    Err(e) => Err(e),
                },
                Err(e) => Err(e),
            },
            Err(e) => Err(e),
        },
        Err(e) => Err(e),
    }
}

/// Reads a rail.
pub open spec fn rail_reader() -> spec_fn(ConfigView) -> Result<RailView, ConfigError> {
    |v: ConfigView| spec_rail(v)
}

impl Rail {
    /// Reads a rail from a configuration value
    pub fn from_toml(doc: &ConfigValue) -> (r: Result<Rail, ConfigError>)
        ensures
            match spec_rail(doc@) {
                Ok(rail) => r matches Ok(read) && read@ == rail,
                Err(e) => r == Err::<Rail, ConfigError>(e),
            },
    {
        let edges = field(doc, "edges")?;
        let edges = items(edges, "edges")?;
        assert(views_of(edges@) =~= spec_items(spec_field(doc@, "edges")->Ok_0, "edges")->Ok_0);
        let edges = numbers(edges, "edge")?;
        let city: Option<Stop> = match doc.get("city") {
            Some(city) => Some(Stop::City(City::from_toml(city)?)),
            None => None,
        };
        let location: Option<Stop> = match doc.get("location") {
            Some(location) => Some(Stop::Location(Location::from_toml(location)?)),
            None => None,
        };
        let stop: Option<Stop> = match city {
            Some(city) => Some(city),
            None => location,
        };
        Ok(Rail::new(edges, stop))
    }
}

/// The first `n` items as integers, cut to 32 bits with a sign, or the
/// error for the first that is no integer.
pub open spec fn spec_signed_numbers(items: Seq<ConfigView>, what: &'static str, n: int) -> Result<
    Seq<i32>,
    ConfigError,
>
    decreases n,
{
    if n <= 0 {
        Ok(Seq::empty())
    } else {
        match spec_signed_numbers(items, what, n - 1) {
            Ok(numbers) => match spec_integer(items[n - 1], what) {
                Ok(i) => Ok(numbers.push(i as i32)),
                Err(e) => Err(e),
            },
            Err(e) => Err(e),
        }
    }
}

/// Once an item is no integer, so is the result for every longer part of the array.
pub proof fn lemma_signed_numbers_err(items: Seq<ConfigView>, what: &'static str, n: int, m: int)
    requires
        n <= m,
        spec_signed_numbers(items, what, n) is Err,
    ensures
        spec_signed_numbers(items, what, m) == spec_signed_numbers(items, what, n),
    decreases m - n,
{
    if n < m {
        lemma_signed_numbers_err(items, what, n, m - 1);
    }
}

/// Returns the items of an array as integers, cut to 32 bits with a sign
#[verifier::loop_isolation(false)]
pub fn signed_numbers(items: &Vec<ConfigValue>, what: &'static str) -> (r: Result<Vec<i32>, ConfigError>)
    ensures
        match spec_signed_numbers(views_of(items@), what, items@.len() as int) {
            Ok(numbers) => r matches Ok(v) && v@ == numbers,
            Err(e) => r == Err::<Vec<i32>, ConfigError>(e),
        },
{
    let ghost views = views_of(items@);
    let mut v: Vec<i32> = Vec::new();
    let mut i: usize = 0;
    while i < items.len()
        invariant
            i <= items.len(),
            spec_signed_numbers(views, what, i as int) == Ok::<Seq<i32>, ConfigError>(v@),
        decreases items.len() - i,
    {
        assert(views[i as int] == items@[i as int]@);
        match integer(&items[i], what) {
            Ok(number) => {
                v.push(#[verifier::truncate] (number as i32));
            },
            Err(e) => {
                proof {
                    lemma_signed_numbers_err(views, what, i as int + 1, items@.len() as int);
                }
                return Err(e);
            },
        }
        i = i + 1;
    }
    Ok(v)
}

/// The tile ids under `upgrades`, none for a table without that key.
pub open spec fn spec_upgrades(doc: ConfigView) -> Result<Seq<i32>, ConfigError> {
    match doc.get("upgrades"@) {
        Some(upgrades) => match spec_items(upgrades, "upgrades") {
            Ok(items) => spec_signed_numbers(items, "upgrade", items.len() as int),
            Err(e) => Err(e),
        },
        None => Ok(Seq::empty()),
    }
}

/// The tile that a table describes: `rails`, `color`, and if it has them `upgrades`.
pub open spec fn spec_tile(doc: ConfigView) -> Result<TileView, ConfigError> {
    match spec_field(doc, "rails") {
        Ok(rails) => match spec_items(rails, "rails") {
            Ok(items) => match spec_each(items, rail_reader(), items.len() as int) {
                Ok(rails) => match spec_field(doc, "color") {
                    Ok(color) => match spec_text(color, "color") {
                        Ok(color) => match spec_upgrades(doc) {
                            Ok(upgrades) => match ColorId::spec_parse(color) {
                                Some(color) => Ok(TileView { rails, color, upgrades }),
                                None => Err(ConfigError::Unparsable("ColorId")),
                            },
                            Err(e) => Err(e),
                        },
                        Err(e) => Err(e),
                    },
                    Err(e) => Err(e),
                },
                Err(e) => Err(e),
            },
            Err(e) => Err(e),
        },
        Err(e) => Err(e),
    }
}

impl Tile {
    /// Reads a tile from a configuration value
    #[verifier::loop_isolation(false)]
    pub fn from_toml(doc: &ConfigValue) -> (r: Result<Tile, ConfigError>)
        ensures
            match spec_tile(doc@) {
                Ok(tile) => r matches Ok(read) && read@ == tile,
                Err(e) => r == Err::<Tile, ConfigError>(e),
            },
    {
        let values = field(doc, "rails")?;
        let values = items(values, "rails")?;
        let ghost views = views_of(values@);
        let ghost read = rail_reader();
        assert(views =~= spec_items(spec_field(doc@, "rails")->Ok_0, "rails")->Ok_0);
        let mut rails: Vec<Rail> = Vec::new();
        assert(Seq::new(rails@.len(), |k: int| rails@[k]@) =~= Seq::<RailView>::empty());
        let mut i: usize = 0;
        while i < values.len()
            invariant
                i <= values.len(),
                spec_each(views, read, i as int) == Ok::<Seq<RailView>, ConfigError>(
                    Seq::new(rails@.len(), |k: int| rails@[k]@),
                ),
            decreases values.len() - i,
        {
            assert(views[i as int] == values@[i as int]@);
            match Rail::from_toml(&values[i]) {
                Ok(rail) => {
                    let ghost before = Seq::new(rails@.len(), |k: int| rails@[k]@);
                    rails.push(rail);
                    assert(Seq::new(rails@.len(), |k: int| rails@[k]@) =~= before.push(rail@));
                },
                Err(e) => {
                    proof {
                        lemma_each_err(views, read, i as int + 1, values@.len() as int);
                    }
                    return Err(e);
                },
            }
            i = i + 1;
        }
        let color = field(doc, "color")?;
        let color = text(color, "color")?;
        let upgrades: Vec<i32> = match doc.get("upgrades") {
            Some(upgrades) => {
                let upgrades = items(upgrades, "upgrades")?;
                assert(views_of(upgrades@) =~= spec_items(doc@.get("upgrades"@)->Some_0, "upgrades")->Ok_0);
                signed_numbers(upgrades, "upgrade")?
            },
            None => Vec::new(),
        };
        match ColorId::parse(color) {
            Some(color) => Ok(Tile::new(rails, color, upgrades)),
            None => Err(ConfigError::Unparsable("ColorId")),
        }
    }
}

/// The kind and number of trains that a table describes: `train` and `count`.
pub open spec fn spec_train(doc: ConfigView) -> Result<(TrainId, i32), ConfigError> {
    match spec_field(doc, "train") {
        Ok(train) => match spec_text(train, "train") {
            Ok(train) => match TrainId::spec_parse(train) {
                Some(train) => match spec_integer_field(doc, "count") {
                    Ok(count) => Ok((train, count as i32)),
                    Err(e) => Err(e),
                },
                None => Err(ConfigError::Unparsable("TrainId")),
            },
            Err(e) => Err(e),
        },
        Err(e) => Err(e),
    }
}

/// Reads a kind of train with its number.
pub open spec fn train_reader() -> spec_fn(ConfigView) -> Result<(TrainId, i32), ConfigError> {
    |v: ConfigView| spec_train(v)
}

/// The trains that a document describes: the entries of its `trains`.
pub open spec fn spec_train_set(doc: ConfigView) -> Result<Set<(TrainId, i32)>, ConfigError> {
    match spec_field(doc, "trains") {
        Ok(trains) => match spec_items(trains, "trains") {
            Ok(items) => match spec_each(items, train_reader(), items.len() as int) {
                Ok(trains) => Ok(trains.to_set()),
                Err(e) => Err(e),
            },
            Err(e) => Err(e),
        },
        Err(e) => Err(e),
    }
}

/// Returns the kind and number of trains that a table describes
fn train(doc: &ConfigValue) -> (r: Result<(TrainId, i32), ConfigError>)
    ensures
        r == spec_train(doc@),
{
    let kind = field(doc, "train")?;
    let kind = text(kind, "train")?;
    match TrainId::parse(kind) {
        Some(kind) => {
            let count = integer_field(doc, "count")?;
            Ok((kind, #[verifier::truncate] (count as i32)))
        },
        None => Err(ConfigError::Unparsable("TrainId")),
    }
}

impl TrainSet {
    /// Reads the trains of a game from a configuration document
    #[verifier::loop_isolation(false)]
    pub fn from_config(doc: &ConfigValue) -> (r: Result<TrainSet, ConfigError>)
        ensures
            match spec_train_set(doc@) {
                Ok(trains) => r matches Ok(read) && read@ == trains,
                Err(e) => r == Err::<TrainSet, ConfigError>(e),
            },
    {
        let values = field(doc, "trains")?;
        let values = items(values, "trains")?;
        let ghost views = views_of(values@);
        let ghost read = train_reader();
        assert(views =~= spec_items(spec_field(doc@, "trains")->Ok_0, "trains")->Ok_0);
        let mut trains = TrainSet::new();
        let ghost mut listed: Seq<(TrainId, i32)> = Seq::empty();
        assert(listed.to_set() =~= Set::<(TrainId, i32)>::empty());
        let mut i: usize = 0;
        while i < values.len()
            invariant
                i <= values.len(),
                spec_each(views, read, i as int) == Ok::<Seq<(TrainId, i32)>, ConfigError>(listed),
                trains@ == listed.to_set(),
            decreases values.len() - i,
        {
            assert(views[i as int] == values@[i as int]@);
            match train(&values[i]) {
                Ok(entry) => {
                    trains.insert(entry.0, entry.1);
                    proof {
                        listed.lemma_push_to_set_commute(entry);
                        listed = listed.push(entry);
                    }
                },
                Err(e) => {
                    proof {
                        lemma_each_err(views, read, i as int + 1, values@.len() as int);
                    }
                    return Err(e);
                },
            }
            i = i + 1;
        }
        Ok(trains)
    }

    /// Reads the trains of a game from the TOML data in `s`
    pub fn from_toml(s: &str) -> (r: Result<TrainSet, ConfigError>)
        ensures
            match spec_document(s) {
                Ok(doc) => match spec_train_set(doc) {
                    Ok(trains) => r matches Ok(read) && read@ == trains,
                    Err(e) => r == Err::<TrainSet, ConfigError>(e),
                },
                Err(e) => r == Err::<TrainSet, ConfigError>(e),
            },
    {
        let doc = ConfigValue::parse(s)?;
        TrainSet::from_config(&doc)
    }
}

/// The tiles that the first `n` items describe, each with `id` and
/// `count`, or the first error: an item that cannot be read, or an id that
/// an earlier item has.
pub open spec fn spec_tiles(items: Seq<ConfigView>, n: int) -> Result<Seq<(i32, TileView, i32)>, ConfigError>
    decreases n,
{
    if n <= 0 {
        Ok(Seq::empty())
    } else {
        match spec_tiles(items, n - 1) {
            Ok(tiles) => match spec_integer_field(items[n - 1], "id") {
                Ok(id) => if tile_place_from(tiles, id as i32, 0) is Some {
                    Err(ConfigError::DuplicateTile(id as i32))
                } else {
                    match spec_integer_field(items[n - 1], "count") {
                        Ok(count) => match spec_tile(items[n - 1]) {
                            Ok(tile) => Ok(tiles.push((id as i32, tile, count as i32))),
                            Err(e) => Err(e),
                        },
                        Err(e) => Err(e),
                    }
                },
                Err(e) => Err(e),
            },
            Err(e) => Err(e),
        }
    }
}

/// Once an item cannot be read, the error stays for every longer part of the array.
pub proof fn lemma_tiles_err(items: Seq<ConfigView>, n: int, m: int)
    requires
        n <= m,
        spec_tiles(items, n) is Err,
    ensures
        spec_tiles(items, m) == spec_tiles(items, n),
    decreases m - n,
{
    if n < m {
        lemma_tiles_err(items, n, m - 1);
    }
}

/// The tiles that a document describes: the entries of its `tiles`.
pub open spec fn spec_tile_set(doc: ConfigView) -> Result<Seq<(i32, TileView, i32)>, ConfigError> {
    match spec_field(doc, "tiles") {
        Ok(tiles) => match spec_items(tiles, "tiles") {
            Ok(items) => spec_tiles(items, items.len() as int),
            Err(e) => Err(e),
        },
        Err(e) => Err(e),
    }
}

impl TileSet {
    /// Reads the tiles of a game from a configuration document
    #[verifier::loop_isolation(false)]
    pub fn from_config(doc: &ConfigValue) -> (r: Result<TileSet, ConfigError>)
        ensures
            match spec_tile_set(doc@) {
                Ok(tiles) => r matches Ok(read) && read@ == tiles,
                Err(e) => r == Err::<TileSet, ConfigError>(e),
            },
    {
        let values = field(doc, "tiles")?;
        let values = items(values, "tiles")?;
        let ghost views = views_of(values@);
        assert(views =~= spec_items(spec_field(doc@, "tiles")->Ok_0, "tiles")->Ok_0);
        let mut tiles = TileSet::new();
        let mut i: usize = 0;
        while i < values.len()
            invariant
                i <= values.len(),
                spec_tiles(views, i as int) == Ok::<Seq<(i32, TileView, i32)>, ConfigError>(tiles@),
            decreases values.len() - i,
        {
            assert(views[i as int] == values@[i as int]@);
            proof {
                if spec_tiles(views, i as int + 1) is Err {
                    lemma_tiles_err(views, i as int + 1, values@.len() as int);
                }
            }
            let value = &values[i];
            let id: i32 = #[verifier::truncate] (integer_field(value, "id")? as i32);
            if tiles.contains(id) {
                return Err(ConfigError::DuplicateTile(id));
            }
            let count: i32 = #[verifier::truncate] (integer_field(value, "count")? as i32);
            let tile = Tile::from_toml(value)?;
            tiles.insert(id, tile, count);
            i = i + 1;
        }
        Ok(tiles)
    }

    /// Reads the tiles of a game from the TOML data in `s`
    pub fn from_toml(s: &str) -> (r: Result<TileSet, ConfigError>)
        ensures
            match spec_document(s) {
                Ok(doc) => match spec_tile_set(doc) {
                    Ok(tiles) => r matches Ok(read) && read@ == tiles,
                    Err(e) => r == Err::<TileSet, ConfigError>(e),
                },
                Err(e) => r == Err::<TileSet, ConfigError>(e),
            },
    {
        let doc = ConfigValue::parse(s)?;
        TileSet::from_config(&doc)
    }
}

/// The terrain that a table names under `terrain`; plain for a table without that key.
pub open spec fn spec_terrain(doc: ConfigView) -> Result<TerrainId, ConfigError> {
    match doc.get("terrain"@) {
        Some(terrain) => match spec_text(terrain, "terrain") {
            Ok(terrain) => match TerrainId::spec_parse(terrain) {
                Some(terrain) => Ok(terrain),
                None => Err(ConfigError::Unparsable("TerrainId")),
            },
            Err(e) => Err(e),
        },
        None => Ok(TerrainId::Plain),
    }
}

/// The private company that a table names under `private`, if it has that key.
pub open spec fn spec_private(doc: ConfigView) -> Result<Option<PrivComId>, ConfigError> {
    match doc.get("private"@) {
        Some(private) => match spec_text(private, "private") {
            Ok(private) => match PrivComId::spec_parse(private) {
                Some(private) => Ok(Some(private)),
                None => Err(ConfigError::Unparsable("PrivComId")),
            },
            Err(e) => Err(e),
        },
        None => Ok(None),
    }
}

/// The tile on a hex: the table itself as a tile, if it has `rails` and `color`.
pub open spec fn spec_hex_tile(doc: ConfigView) -> Result<Option<TileView>, ConfigError> {
    if doc.get("rails"@) is Some && doc.get("color"@) is Some {
        match spec_tile(doc) {
            Ok(tile) => Ok(Some(tile)),
            Err(e) => Err(e),
        }
    } else {
        Ok(None)
    }
}

/// The cities on a hex: the entries of `cities`, if the table has that key.
pub open spec fn spec_hex_cities(doc: ConfigView) -> Result<Option<Seq<CityView>>, ConfigError> {
    match doc.get("cities"@) {
        Some(cities) => match spec_items(cities, "cities") {
            Ok(items) => match spec_each(items, city_reader(), items.len() as int) {
                Ok(cities) => Ok(Some(cities)),
                Err(e) => Err(e),
            },
            Err(e) => Err(e),
        },
        None => Ok(None),
    }
}

/// The hex that a table describes: terrain, private company, and a tile
/// or else cities. All four are read.
pub open spec fn spec_hex(doc: ConfigView) -> Result<HexView, ConfigError> {
    match spec_terrain(doc) {
        Ok(terrain) => match spec_private(doc) {
            Ok(private) => match spec_hex_tile(doc) {
                Ok(tile) => match spec_hex_cities(doc) {
                    Ok(cities) => Ok(
                        HexView {
                            terrain,
                            content: match tile {
                                Some(tile) => Some(ContentView::Tile(tile)),
                                None => match cities {
                                    Some(cities) => Some(ContentView::Cities(cities)),
                                    None => None,
                                },
                            },
                            private,
                        },
                    ),
                    Err(e) => Err(e),
                },
                Err(e) => Err(e),
            },
            Err(e) => Err(e),
        },
        Err(e) => Err(e),
    }
}

/// Returns the cities on a hex
#[verifier::loop_isolation(false)]
fn hex_cities(doc: &ConfigValue) -> (r: Result<Option<Vec<City>>, ConfigError>)
    ensures
        match spec_hex_cities(doc@) {
            Ok(Some(cities)) => r matches Ok(Some(read)) && Seq::new(read@.len(), |k: int| read@[k]@) == cities,
            Ok(None) => r matches Ok(None),
            Err(e) => r == Err::<Option<Vec<City>>, ConfigError>(e),
        },
{
    match doc.get("cities") {
        Some(values) => {
            let values = items(values, "cities")?;
            let ghost views = views_of(values@);
            let ghost read = city_reader();
            assert(views =~= spec_items(doc@.get("cities"@)->Some_0, "cities")->Ok_0);
            let mut cities: Vec<City> = Vec::new();
            assert(Seq::new(cities@.len(), |k: int| cities@[k]@) =~= Seq::<CityView>::empty());
            let mut i: usize = 0;
            while i < values.len()
                invariant
                    i <= values.len(),
                    spec_each(views, read, i as int) == Ok::<Seq<CityView>, ConfigError>(
                        Seq::new(cities@.len(), |k: int| cities@[k]@),
                    ),
                decreases values.len() - i,
            {
                assert(views[i as int] == values@[i as int]@);
                match City::from_toml(&values[i]) {
                    Ok(city) => {
                        let ghost before = Seq::new(cities@.len(), |k: int| cities@[k]@);
                        cities.push(city);
                        assert(Seq::new(cities@.len(), |k: int| cities@[k]@) =~= before.push(city@));
                    },
                    Err(e) => {
                        proof {
                            lemma_each_err(views, read, i as int + 1, values@.len() as int);
                        }
                        return Err(e);
                    },
                }
                i = i + 1;
            }
            Ok(Some(cities))
        },
        None => Ok(None),
    }
}

impl Hex {
    /// Reads a hex from a configuration value
    pub fn from_toml(doc: &ConfigValue) -> (r: Result<Hex, ConfigError>)
        ensures
            match spec_hex(doc@) {
                Ok(hex) => r matches Ok(read) && read@ == hex,
                Err(e) => r == Err::<Hex, ConfigError>(e),
            },
    {
        let terrain: TerrainId = match doc.get("terrain") {
            Some(terrain) => {
                let terrain = text(terrain, "terrain")?;
                match TerrainId::parse(terrain) {
                    Some(terrain) => terrain,
                    None => {
                        return Err(ConfigError::Unparsable("TerrainId"));
                    },
                }
            },
            None => TerrainId::Plain,
        };
        let private: Option<PrivComId> = match doc.get("private") {
            Some(private) => {
                let private = text(private, "private")?;
                match PrivComId::parse(private) {
                    Some(private) => Some(private),
                    None => {
                        return Err(ConfigError::Unparsable("PrivComId"));
                    },
                }
            },
            None => None,
        };
        let tile: Option<Tile> = if doc.get("rails").is_some() && doc.get("color").is_some() {
            Some(Tile::from_toml(doc)?)
        } else {
            None
        };
        let cities = hex_cities(doc)?;
        let content: Option<Content> = match tile {
            Some(tile) => Some(Content::Tile(tile)),
            None => match cities {
                Some(cities) => Some(Content::Cities(cities)),
                None => None,
            },
        };
        let hex = Hex::new(terrain, content, private);
        assert(hex@ =~~= spec_hex(doc@)->Ok_0);
        Ok(hex)
    }
}

/// The map with the hexes that the first `n` items describe, each at its
/// `x` and `y`, or the first error: an item that cannot be read, or a place
/// outside the map or with a hex on it.
pub open spec fn spec_hexes(items: Seq<ConfigView>, n: int, start: MapView) -> Result<MapView, ConfigError>
    decreases n,
{
    if n <= 0 {
        Ok(start)
    } else {
        match spec_hexes(items, n - 1, start) {
            Ok(map) => match spec_integer_field(items[n - 1], "x") {
                Ok(x) => match spec_integer_field(items[n - 1], "y") {
                    Ok(y) => if !((x as usize) < map.width && (y as usize) < map.height) {
                        Err(ConfigError::HexOutside(x as usize, y as usize))
                    } else if map.hexes[(x as usize) as int][(y as usize) as int] is Some {
                        Err(ConfigError::HexOccupied(x as usize, y as usize))
                    } else {
                        match spec_hex(items[n - 1]) {
                            Ok(hex) => Ok(map.set_hex(x as usize, y as usize, hex)),
                            Err(e) => Err(e),
                        }
                    },
                    Err(e) => Err(e),
                },
                Err(e) => Err(e),
            },
            Err(e) => Err(e),
        }
    }
}

/// Once an item cannot be read, the error stays for every longer part of the array.
pub proof fn lemma_hexes_err(items: Seq<ConfigView>, n: int, m: int, start: MapView)
    requires
        n <= m,
        spec_hexes(items, n, start) is Err,
    ensures
        spec_hexes(items, m, start) == spec_hexes(items, n, start),
    decreases m - n,
{
    if n < m {
        lemma_hexes_err(items, n, m - 1, start);
    }
}

/// The edge under `edge`, cut to 32 bits, if the table has that key.
pub open spec fn spec_edge(doc: ConfigView) -> Result<Option<u32>, ConfigError> {
    match doc.get("edge"@) {
        Some(edge) => match spec_integer(edge, "edge") {
            Ok(edge) => Ok(Some(edge as u32)),
            Err(e) => Err(e),
        },
        None => Ok(None),
    }
}

/// The map with the homes that the first `n` items describe, each with
/// `id`, `x`, `y` and if it has one `edge`, or the first error.
pub open spec fn spec_homes(items: Seq<ConfigView>, n: int, start: MapView) -> Result<MapView, ConfigError>
    decreases n,
{
    if n <= 0 {
        Ok(start)
    } else {
        match spec_homes(items, n - 1, start) {
            Ok(map) => match spec_field(items[n - 1], "id") {
                Ok(id) => match spec_text(id, "id") {
                    Ok(id) => match PubComId::spec_parse(id) {
                        Some(id) => match spec_integer_field(items[n - 1], "x") {
                            Ok(x) => match spec_integer_field(items[n - 1], "y") {
                                Ok(y) => match spec_edge(items[n - 1]) {
                                    Ok(edge) => Ok(map.set_home(id, x as usize, y as usize, edge)),
                                    Err(e) => Err(e),
                                },
                                Err(e) => Err(e),
                            },
                            Err(e) => Err(e),
                        },
                        None => Err(ConfigError::Unparsable("PubComId")),
                    },
                    Err(e) => Err(e),
                },
                Err(e) => Err(e),
            },
            Err(e) => Err(e),
        }
    }
}

/// Once an item cannot be read, the error stays for every longer part of the array.
pub proof fn lemma_homes_err(items: Seq<ConfigView>, n: int, m: int, start: MapView)
    requires
        n <= m,
        spec_homes(items, n, start) is Err,
    ensures
        spec_homes(items, m, start) == spec_homes(items, n, start),
    decreases m - n,
{
    if n < m {
        lemma_homes_err(items, n, m - 1, start);
    }
}

/// The map that a document describes: `width` columns of `height` rows,
/// the entries of `hexes`, and the entries of `homes`.
pub open spec fn spec_map(doc: ConfigView) -> Result<MapView, ConfigError> {
    match spec_integer_field(doc, "width") {
        Ok(width) => match spec_integer_field(doc, "height") {
            Ok(height) => match spec_field(doc, "hexes") {
                Ok(hexes) => match spec_items(hexes, "hexes") {
                    Ok(hexes) => match spec_hexes(
                        hexes,
                        hexes.len() as int,
                        MapView::new(width as usize, height as usize),
                    ) {
                        Ok(map) => match spec_field(doc, "homes") {
                            Ok(homes) => match spec_items(homes, "homes") {
                                Ok(homes) => spec_homes(homes, homes.len() as int, map),
                                Err(e) => Err(e),
                            },
                            Err(e) => Err(e),
                        },
                        Err(e) => Err(e),
                    },
                    Err(e) => Err(e),
                },
                Err(e) => Err(e),
            },
            Err(e) => Err(e),
        },
        Err(e) => Err(e),
    }
}

impl GameMap {
    /// Reads the map of a game from a configuration document
    #[verifier::loop_isolation(false)]
    pub fn from_config(doc: &ConfigValue) -> (r: Result<GameMap, ConfigError>)
        ensures
            match spec_map(doc@) {
                Ok(map) => r matches Ok(read) && read@ == map && read@.wf(),
                Err(e) => r == Err::<GameMap, ConfigError>(e),
            },
    {
        let width: usize = #[verifier::truncate] (integer_field(doc, "width")? as usize);
        let height: usize = #[verifier::truncate] (integer_field(doc, "height")? as usize);
        let mut map = GameMap::new(width, height);
        let ghost start = map@;
        let hexes = field(doc, "hexes")?;
        let hexes = items(hexes, "hexes")?;
        let ghost views = views_of(hexes@);
        assert(views =~= spec_items(spec_field(doc@, "hexes")->Ok_0, "hexes")->Ok_0);
        let mut i: usize = 0;
        while i < hexes.len()
            invariant
                i <= hexes.len(),
                map@.wf(),
                map@.width == width,
                map@.height == height,
                spec_hexes(views, i as int, start) == Ok::<MapView, ConfigError>(map@),
            decreases hexes.len() - i,
        {
            assert(views[i as int] == hexes@[i as int]@);
            proof {
                if spec_hexes(views, i as int + 1, start) is Err {
                    lemma_hexes_err(views, i as int + 1, hexes@.len() as int, start);
                }
            }
            let value = &hexes[i];
            let x: usize = #[verifier::truncate] (integer_field(value, "x")? as usize);
            let y: usize = #[verifier::truncate] (integer_field(value, "y")? as usize);
            if !(x < width && y < height) {
                return Err(ConfigError::HexOutside(x, y));
            }
            if map.hex(x, y).is_some() {
                return Err(ConfigError::HexOccupied(x, y));
            }
            let hex = Hex::from_toml(value)?;
            map.set_hex(x, y, hex);
            i = i + 1;
        }
        let ghost filled = map@;
        let homes = field(doc, "homes")?;
        let homes = items(homes, "homes")?;
        let ghost home_views = views_of(homes@);
        assert(home_views =~= spec_items(spec_field(doc@, "homes")->Ok_0, "homes")->Ok_0);
        let mut k: usize = 0;
        while k < homes.len()
            invariant
                k <= homes.len(),
                map@.wf(),
                spec_homes(home_views, k as int, filled) == Ok::<MapView, ConfigError>(map@),
            decreases homes.len() - k,
        {
            assert(home_views[k as int] == homes@[k as int]@);
            proof {
                if spec_homes(home_views, k as int + 1, filled) is Err {
                    lemma_homes_err(home_views, k as int + 1, homes@.len() as int, filled);
                }
            }
            let value = &homes[k];
            let id = field(value, "id")?;
            let id = text(id, "id")?;
            let id: PubComId = match PubComId::parse(id) {
                Some(id) => id,
                None => {
                    return Err(ConfigError::Unparsable("PubComId"));
                },
            };
            let x: usize = #[verifier::truncate] (integer_field(value, "x")? as usize);
            let y: usize = #[verifier::truncate] (integer_field(value, "y")? as usize);
            let edge: Option<u32> = match value.get("edge") {
                Some(edge) => Some(#[verifier::truncate] (integer(edge, "edge")? as u32)),
                None => None,
            };
            map.set_home(id, x, y, edge);
            k = k + 1;
        }
        Ok(map)
    }

    /// Reads the map of a game from the TOML data in `s`
    pub fn from_toml(s: &str) -> (r: Result<GameMap, ConfigError>)
        ensures
            match spec_document(s) {
                Ok(doc) => match spec_map(doc) {
                    Ok(map) => r matches Ok(read) && read@ == map && read@.wf(),
                    Err(e) => r == Err::<GameMap, ConfigError>(e),
                },
                Err(e) => r == Err::<GameMap, ConfigError>(e),
            },
    {
        let doc = ConfigValue::parse(s)?;
        GameMap::from_config(&doc)
    }
}

impl std::str::FromStr for GameMap {
    type Err = ConfigError;

    fn from_str(s: &str) -> (r: Result<Self, Self::Err>)
        ensures
            match spec_document(s) {
                Ok(doc) => match spec_map(doc) {
                    Ok(map) => r matches Ok(read) && read@ == map && read@.wf(),
                    Err(e) => r == Err::<GameMap, ConfigError>(e),
                },
                Err(e) => r == Err::<GameMap, ConfigError>(e),
            },
    {
        GameMap::from_toml(s)
    }
}

} // verus!
