//! Configuration documents: the values that a TOML text holds, and how
//! the parts of a game are read from them.

pub mod read;

use crate::ids::same_text;
use vstd::prelude::*;
use vstd::string::StringSliceAdditionalSpecFns;

verus! {

/// Why a part of a game could not be read from a configuration document.
#[derive(Clone, Copy, Debug)]
pub enum ConfigError {
    /// The text is no TOML document
    InvalidToml,
    /// A table lacks the entry with this key
    Missing(&'static str),
    /// The value with this name is not of this type
    WrongType(&'static str, &'static str),
    /// The values of an off-board location are not four
    ValuesLength,
    /// A text names no identifier of this kind
    Unparsable(&'static str),
    /// Two hexes stand at this column and row
    HexOccupied(usize, usize),
    /// A hex stands at this column and row, outside the map
    HexOutside(usize, usize),
    /// Two tiles have this id
    DuplicateTile(i32),
    /// The par values are not 70, 80 and 95, each at its place
    ParValues,
    /// The stock chart lacks a field on which tokens start
    StartFields,
    /// Somewhere in the text the open brackets and the dots of the line
    /// are more than `NESTING_LIMIT`
    TooDeep,
}

/// The most open brackets and dots of a line that a text may have at any
/// place to be read. Every level at which a TOML document nests its values
/// takes a bracket or a brace that is open there, or a part of a dotted key
/// or table header of one line. So the header of a table, a key in it and
/// the value of that key each nest no deeper than the limit and one.
pub const NESTING_LIMIT: usize = 64;

/// What a place of a TOML text belongs to, as far as one line tells.
#[derive(Clone, Copy, Debug, PartialEq, Eq, Structural)]
pub enum ScanMode {
    /// Keys and values
    Code,
    /// A string between double quotes
    Basic,
    /// A string between single quotes
    Literal,
    /// A comment
    Comment,
}

/// What is known of a TOML text after some of its bytes: how many
/// brackets and braces are counted as open, how many dots the line has so
/// far, what the place belongs to, whether the last byte was a backslash
/// that takes the next byte with it, and whether three quotes in a row
/// have come, which begin a string of several lines.
pub struct Scan {
    pub open: nat,
    pub dots: nat,
    pub mode: ScanMode,
    pub escaped: bool,
    pub multi: bool,
}

/// What is known before the first byte.
pub open spec fn scan_start() -> Scan {
    Scan { open: 0, dots: 0, mode: ScanMode::Code, escaped: false, multi: false }
}

/// Whether the byte at `i` is the third of three equal quotes in a row.
pub open spec fn third_quote(bytes: Seq<u8>, i: int) -> bool {
    i >= 2 && (bytes[i] == 34 || bytes[i] == 39) && bytes[i - 1] == bytes[i] && bytes[i - 2] == bytes[i]
}

/// What is known after the byte at `i`. Every `[` and `{` counts as
/// open, wherever it stands. A `]` or `}` closes one only where it stands
/// among keys and values, and only as long as no string of several lines
/// has begun: so no more are closed than the text closes. Strings and
/// comments end with their line at the latest.
pub open spec fn scan_step(before: Scan, bytes: Seq<u8>, i: int) -> Scan {
    let b = bytes[i];
    let multi = before.multi || third_quote(bytes, i);
    let open = if b == 91 || b == 123 {
        before.open + 1
    } else if (b == 93 || b == 125) && before.mode == ScanMode::Code && !multi && before.open > 0 {
        (before.open - 1) as nat
    } else {
        before.open
    };
    let dots = if b == 10 {
        0
    } else if b == 46 {
        before.dots + 1
    } else {
        before.dots
    };
    let mode = if b == 10 {
        ScanMode::Code
    } else {
        match before.mode {
            ScanMode::Code => if b == 34 {
                ScanMode::Basic
            } else if b == 39 {
                ScanMode::Literal
            } else if b == 35 {
                ScanMode::Comment
            } else {
                ScanMode::Code
            },
            ScanMode::Basic => if !before.escaped && b == 34 {
                ScanMode::Code
            } else {
                ScanMode::Basic
            },
            ScanMode::Literal => if b == 39 {
                ScanMode::Code
            } else {
                ScanMode::Literal
            },
            ScanMode::Comment => ScanMode::Comment,
        }
    };
    let escaped = b != 10 && before.mode == ScanMode::Basic && !before.escaped && b == 92;
    Scan { open, dots, mode, escaped, multi }
}

/// What is known after the first `n` bytes.
pub open spec fn scan(bytes: Seq<u8>, n: int) -> Scan
    decreases n,
{
    if n <= 0 {
        scan_start()
    } else {
        scan_step(scan(bytes, n - 1), bytes, n - 1)
    }
}

/// Whether the open brackets and the dots of the line are at most
/// `NESTING_LIMIT` after each of the first `n` bytes.
pub open spec fn shallow_upto(bytes: Seq<u8>, n: int) -> bool
    decreases n,
{
    n <= 0 || (shallow_upto(bytes, n - 1) && scan(bytes, n).open + scan(bytes, n).dots <= NESTING_LIMIT)
}

/// Whether a text nests shallow enough to be read.
pub open spec fn shallow(s: &str) -> bool {
    shallow_upto(s.spec_bytes(), s.spec_bytes().len() as int)
}

/// Returns whether a text nests shallow enough to be read
pub fn is_shallow(s: &str) -> (b: bool)
    ensures
        b == shallow(s),
{
    let bytes = s.as_bytes();
    let mut open: usize = 0;
    let mut dots: usize = 0;
    let mut mode = ScanMode::Code;
    let mut escaped: bool = false;
    let mut multi: bool = false;
    let mut i: usize = 0;
    while i < bytes.len()
        invariant
            i <= bytes.len(),
            bytes@ == s.spec_bytes(),
            scan(bytes@, i as int) == (Scan { open: open as nat, dots: dots as nat, mode, escaped, multi }),
            open + dots <= NESTING_LIMIT,
            shallow_upto(bytes@, i as int),
        decreases bytes.len() - i,
    {
        let b: u8 = bytes[i];
        let third: bool = i >= 2 && (b == 34 || b == 39) && bytes[i - 1] == b && bytes[i - 2] == b;
        assert(third == third_quote(bytes@, i as int));
        multi = multi || third;
        if b == 91 || b == 123 {
            open = open + 1;
        } else if (b == 93 || b == 125) && mode == ScanMode::Code && !multi && open > 0 {
            open = open - 1;
        }
        if b == 10 {
            dots = 0;
        } else if b == 46 {
            dots = dots + 1;
        }
        let was_escaped: bool = escaped;
        escaped = b != 10 && mode == ScanMode::Basic && !was_escaped && b == 92;
        mode = if b == 10 {
            ScanMode::Code
        } else {
            match mode {
                ScanMode::Code => if b == 34 {
                    ScanMode::Basic
                } else if b == 39 {
                    ScanMode::Literal
                } else if b == 35 {
                    ScanMode::Comment
                } else {
                    ScanMode::Code
                },
                ScanMode::Basic => if !was_escaped && b == 34 {
                    ScanMode::Code
                } else {
                    ScanMode::Basic
                },
                ScanMode::Literal => if b == 39 {
                    ScanMode::Code
                } else {
                    ScanMode::Literal
                },
                ScanMode::Comment => ScanMode::Comment,
            }
        };
        if open + dots > NESTING_LIMIT {
            proof {
                lemma_not_shallow(bytes@, i as int + 1, bytes@.len() as int);
            }
            return false;
        }
        i = i + 1;
    }
    true
}

/// A text that is too deep at some place is too deep as a whole.
pub proof fn lemma_not_shallow(bytes: Seq<u8>, n: int, m: int)
    requires
        n <= m,
        !shallow_upto(bytes, n),
    ensures
        !shallow_upto(bytes, m),
    decreases m - n,
{
    if n < m {
        lemma_not_shallow(bytes, n, m - 1);
    }
}

/// The TOML crate's value type.
#[verifier::external_type_specification]
#[verifier::external_body]
pub struct ExTomlValue(toml::Value);

/// The document that the TOML crate reads from a text, value by value; None
/// where the text is no TOML document.
pub uninterp spec fn toml_document(s: Seq<char>) -> Option<ConfigView>;

/// Copies a value of the TOML crate, `toml::Value`, variant by variant:
/// strings, integers, arrays item by item and tables entry by entry, as the
/// table hands them out; a float, a boolean and a date become `Other`.
#[verifier::external_body]
fn from_toml_value(value: &toml::Value) -> ConfigValue {
    match value {
        toml::Value::String(text) => ConfigValue::Text(text.clone()),
        toml::Value::Integer(i) => ConfigValue::Integer(*i),
        toml::Value::Array(items) => ConfigValue::Array(items.iter().map(from_toml_value).collect()),
        toml::Value::Table(entries) => ConfigValue::Table(
            entries.iter().map(|(key, value)| (key.clone(), from_toml_value(value))).collect(),
        ),
        toml::Value::Float(_) => ConfigValue::Other,
        toml::Value::Boolean(_) => ConfigValue::Other,
        toml::Value::Datetime(_) => ConfigValue::Other,
    }
}

/// Reads a TOML document with `str::parse::<toml::Value>`, the TOML crate's
/// `FromStr` for `toml::Value`. What it reads depends on the text alone;
/// None where the crate reports an error. The crate reads nested values by
/// calling itself, so the text must nest shallow.
#[verifier::external_body]
fn parse_toml(s: &str) -> (r: Option<ConfigValue>)
    requires
        shallow(s),
    ensures
        match toml_document(s@) {
            Some(document) => r matches Some(value) && value@ == document,
            None => r is None,
        },
{
    match s.parse::<toml::Value>() {
        Ok(value) => Some(from_toml_value(&value)),
        Err(_) => None,
    }
}

/// The document that a text holds, or the error for a text that nests
/// too deep or is no TOML document.
pub open spec fn spec_document(s: &str) -> Result<ConfigView, ConfigError> {
    if !shallow(s) {
        Err(ConfigError::TooDeep)
    } else {
        match toml_document(s@) {
            Some(document) => Ok(document),
            None => Err(ConfigError::InvalidToml),
        }
    }
}

impl ConfigView {
    /// The value of the first entry with the key `key` from position `from` on.
    pub open spec fn entry_from(entries: Seq<(Seq<char>, ConfigView)>, key: Seq<char>, from: int) -> Option<
        ConfigView,
    >
        decreases entries.len() - from,
    {
        if from < 0 || from >= entries.len() {
            None
        } else if entries[from].0 == key {
            Some(entries[from].1)
        } else {
            ConfigView::entry_from(entries, key, from + 1)
        }
    }

    /// The value with the key `key` in a table; None in a table without
    /// that key and in a value that is no table.
    pub open spec fn get(self, key: Seq<char>) -> Option<ConfigView> {
        match self {
            ConfigView::Table(entries) => ConfigView::entry_from(entries, key, 0),
            _ => None,
        }
    }
}

impl ConfigValue {
    /// Reads a configuration document from a TOML text
    pub fn parse(s: &str) -> (r: Result<ConfigValue, ConfigError>)
        ensures
            match spec_document(s) {
                Ok(document) => r matches Ok(value) && value@ == document,
                Err(e) => r == Err::<ConfigValue, ConfigError>(e),
            },
    {
        if !is_shallow(s) {
            return Err(ConfigError::TooDeep);
        }
        match parse_toml(s) {
            Some(value) => Ok(value),
            None => Err(ConfigError::InvalidToml),
        }
    }

    /// Returns the value with the key `key` if this `ConfigValue` is a table with that key
    pub fn get(&self, key: &str) -> (r: Option<&ConfigValue>)
        ensures
            match self@.get(key@) {
                Some(found) => r matches Some(value) && value@ == found,
                None => r is None,
            },
    {
        match self {
            ConfigValue::Table(entries) => {
                let ghost views = Seq::new(
                    entries@.len(),
                    |i: int|
                        if 0 <= i < entries@.len() {
                            (entries@[i].0@, entries@[i].1@)
                        } else {
                            (Seq::empty(), ConfigView::Other)
                        },
                );
                assert(self.model()->Table_0 =~= views);
                assert(self@ == ConfigView::Table(views));
                let mut i: usize = 0;
                while i < entries.len()
                    invariant
                        i <= entries.len(),
                        self@ == ConfigView::Table(views),
                        views.len() == entries@.len(),
                        forall|k: int|
                            0 <= k < entries@.len() ==> #[trigger] views[k] == (entries@[k].0@, entries@[k].1@),
                        ConfigView::entry_from(views, key@, 0) == ConfigView::entry_from(views, key@, i as int),
                    decreases entries.len() - i,
                {
                    let entry = &entries[i];
                    if same_text(entry.0.as_str(), key) {
                        return Some(&entry.1);
                    }
                    i = i + 1;
                }
                None
            },
            _ => None,
        }
    }

    /// Returns the integer if this `ConfigValue` is one
    pub fn as_integer(&self) -> (r: Option<i64>)
        ensures
            r == (match self@ {
                ConfigView::Integer(i) => Some(i),
                _ => None,
            }),
    {
        match self {
            ConfigValue::Integer(i) => Some(*i),
            _ => None,
        }
    }

    /// Returns the text if this `ConfigValue` is one
    pub fn as_str(&self) -> (r: Option<&str>)
        ensures
            match self@ {
                ConfigView::Text(text) => r matches Some(s) && s@ == text,
                _ => r is None,
            },
    {
        match self {
            ConfigValue::Text(text) => Some(text.as_str()),
            _ => None,
        }
    }

    /// Returns the items if this `ConfigValue` is an array
    pub fn as_array(&self) -> (r: Option<&Vec<ConfigValue>>)
        ensures
            match self@ {
                ConfigView::Array(items) => r matches Some(v) && v@.len() == items.len() && forall|i: int|
                    0 <= i < items.len() ==> (#[trigger] v@[i])@ == items[i],
                _ => r is None,
            },
    {
        match self {
            ConfigValue::Array(items) => {
                assert(self.model()->Array_0 =~= Seq::new(
                    items@.len(),
                    |i: int|
                        if 0 <= i < items@.len() {
                            items@[i]@
                        } else {
                            ConfigView::Other
                        },
                ));
                Some(items)
            },
            _ => None,
        }
    }
}

/// A value of a configuration document, as mathematical data. A table
/// lists its entries in the order of their keys.
#[verifier::ext_equal]
pub enum ConfigView {
    Text(Seq<char>),
    Integer(i64),
    Array(Seq<ConfigView>),
    Table(Seq<(Seq<char>, ConfigView)>),
    Other,
}

/// A value of a configuration document: a text, an integer, an array of
/// values, a table of values by key, or a value of a kind that no part of
/// a game is read from.
#[derive(Debug)]
pub enum ConfigValue {
    /// A text
    Text(String),
    /// An integer
    Integer(i64),
    /// An array of values
    Array(Vec<ConfigValue>),
    /// A table: keys with their values
    Table(Vec<(String, ConfigValue)>),
    /// A float, a boolean or a date
    Other,
}

impl ConfigValue {
    /// This value as mathematical data.
    pub open spec fn model(&self) -> ConfigView
        decreases self,
    {
        match self {
            ConfigValue::Text(text) => ConfigView::Text(text@),
            ConfigValue::Integer(i) => ConfigView::Integer(*i),
            ConfigValue::Array(items) => ConfigView::Array(
                Seq::new(
                    items@.len(),
                    |i: int|
                        if 0 <= i < items@.len() {
                            items@[i].model()
                        } else {
                            ConfigView::Other
                        },
                ),
            ),
            ConfigValue::Table(entries) => ConfigView::Table(
                Seq::new(
                    entries@.len(),
                    |i: int|
                        if 0 <= i < entries@.len() {
                            (entries@[i].0@, entries@[i].1.model())
                        } else {
                            (Seq::empty(), ConfigView::Other)
                        },
                ),
            ),
            ConfigValue::Other => ConfigView::Other,
        }
    }
}

impl View for ConfigValue {
    type V = ConfigView;

    open spec fn view(&self) -> ConfigView {
        self.model()
    }
}

} // verus!
