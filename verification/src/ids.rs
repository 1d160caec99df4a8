//! Identifiers of the game's companies, tiles, terrains, trains and phases.

use crate::rounds::operating_round::{OperatingRound, OperatingRoundView};
use crate::rounds::priv_auction::{AuctionView, PrivAuction};
use crate::rounds::stock_round::{StockRound, StockRoundView};
use vstd::prelude::*;

verus! {

/// True if the two texts hold the same characters.
pub(crate) fn same_text(a: &str, b: &str) -> (r: bool)
    ensures
        r == (a@ == b@),
{
    a.to_owned() == b.to_owned()
}

/// The message for a text that names no identifier of the given kind.
pub open spec fn parse_failure_text(s: Seq<char>, kind: Seq<char>) -> Seq<char> {
    s + " can not be parsed as "@ + kind
}

/// Formats the message for a text that names no identifier of the given kind
/// with `format!`: the text, the words " can not be parsed as " and the kind.
#[verifier::external_body]
fn parse_failure(s: &str, kind: &str) -> (msg: String)
    ensures
        msg@ == parse_failure_text(s@, kind@),
{
    format!("{} can not be parsed as {}", s, kind)
}

/// Represents the color of a tile
#[derive(Clone, Copy, Debug, PartialEq, Eq, Structural, Hash, PartialOrd, Ord)]
pub enum ColorId {
    /// Yellow tile color
    Yellow,
    /// Green tile color
    Green,
    /// Brown tile color
    Brown,
    /// Gray tile color
    Gray,
    /// Red tile color
    Red,
}

impl ColorId {

    /// The tile color that a text names, if any.
    pub open spec fn spec_parse(s: Seq<char>) -> Option<ColorId> {
        if s == "Yellow"@ {
            Some(ColorId::Yellow)
        } else if s == "Green"@ {
            Some(ColorId::Green)
        } else if s == "Brown"@ {
            Some(ColorId::Brown)
        } else if s == "Gray"@ {
            Some(ColorId::Gray)
        } else if s == "Red"@ {
            Some(ColorId::Red)
        } else {
            None
        }
    }

    /// Reads a tile color from the text that names it.
    pub fn parse(s: &str) -> (r: Option<ColorId>)
        ensures
            r == ColorId::spec_parse(s@),
    {
        if same_text(s, "Yellow") {
            Some(ColorId::Yellow)
        } else if same_text(s, "Green") {
            Some(ColorId::Green)
        } else if same_text(s, "Brown") {
            Some(ColorId::Brown)
        } else if same_text(s, "Gray") {
            Some(ColorId::Gray)
        } else if same_text(s, "Red") {
            Some(ColorId::Red)
        } else {
            None
        }
    }
}

impl std::str::FromStr for ColorId {
    type Err = String;

    fn from_str(s: &str) -> (r: Result<Self, Self::Err>)
        ensures
            match ColorId::spec_parse(s@) {
                Some(id) => r == Ok::<ColorId, String>(id),
                None => r is Err && r->Err_0@ == parse_failure_text(s@, "ColorId"@),
            },
    {
        match ColorId::parse(s) {
            Some(id) => Ok(id),
            None => Err(parse_failure(s, "ColorId")),
        }
    }
}

/// The number of public companies.
pub const PUB_COM_COUNT: usize = 8;

/// Identifies a public company
#[derive(Clone, Copy, Debug, PartialEq, Eq, Structural, Hash)]
pub enum PubComId {
    /// Baltimore and Ohio Railroad
    BAndO,
    /// Camden and Amboy Railroad
    CAndA,
    /// Chesapeake and Ohio Railroad
    CAndO,
    /// Lehigh Valley Railroad
    LV,
    /// Norfolk and Western Railway
    NAndW,
    /// Pennsylvania Railroad
    PRR,
    /// Pittsburgh & Lake Erie Railroad
    PAndLE,
    /// Strasburg Rail Road
    SRR,
}

impl PubComId {
    /// The position of this company in the list of public companies.
    pub open spec fn index(self) -> int {
        match self {
            PubComId::BAndO => 0,
            PubComId::CAndA => 1,
            PubComId::CAndO => 2,
            PubComId::LV => 3,
            PubComId::NAndW => 4,
            PubComId::PRR => 5,
            PubComId::PAndLE => 6,
            PubComId::SRR => 7,
        }
    }

    /// The public companies, in their fixed order.
    pub open spec fn all() -> Seq<PubComId> {
        seq![
            PubComId::BAndO,
            PubComId::CAndA,
            PubComId::CAndO,
            PubComId::LV,
            PubComId::NAndW,
            PubComId::PRR,
            PubComId::PAndLE,
            PubComId::SRR,
        ]
    }

    /// Every company stands in `all()` at its own index.
    pub proof fn lemma_all()
        ensures
            PubComId::all().len() == 8,
            forall|c: PubComId| 0 <= #[trigger] c.index() < 8 && PubComId::all()[c.index()] == c,
            forall|i: int| 0 <= i < 8 ==> (#[trigger] PubComId::all()[i]).index() == i,
    {
    }

    /// Returns the position of this company in the list of public companies
    pub fn ordinal(self) -> (i: usize)
        ensures
            i == self.index(),
            i < 8,
    {
        match self {
            PubComId::BAndO => 0,
            PubComId::CAndA => 1,
            PubComId::CAndO => 2,
            PubComId::LV => 3,
            PubComId::NAndW => 4,
            PubComId::PRR => 5,
            PubComId::PAndLE => 6,
            PubComId::SRR => 7,
        }
    }

    /// Returns the company at a position of the list of public companies
    pub fn from_ordinal(i: usize) -> (c: PubComId)
        requires
            i < 8,
        ensures
            c == PubComId::all()[i as int],
            c.index() == i,
    {
        if i == 0 {
            PubComId::BAndO
        } else if i == 1 {
            PubComId::CAndA
        } else if i == 2 {
            PubComId::CAndO
        } else if i == 3 {
            PubComId::LV
        } else if i == 4 {
            PubComId::NAndW
        } else if i == 5 {
            PubComId::PRR
        } else if i == 6 {
            PubComId::PAndLE
        } else {
            PubComId::SRR
        }
    }

    /// The name of this `PubComId`, as a sequence of characters.
    pub open spec fn spec_name(self) -> Seq<char> {
        match self {
            PubComId::BAndO => "Baltimore and Ohio Railroad"@,
            PubComId::CAndA => "Camden and Amboy Railroad"@,
            PubComId::CAndO => "Chesapeake and Ohio Railroad"@,
            PubComId::LV => "Lehigh Valley Railroad"@,
            PubComId::NAndW => "Norfolk and Western Railway"@,
            PubComId::PRR => "Pennsylvania Railroad"@,
            PubComId::PAndLE => "Pittsburgh & Lake Erie Railroad"@,
            PubComId::SRR => "Strasburg Rail Road"@,
        }
    }

    /// Returns the name of this `PubComId`
    pub fn name(&self) -> (s: &'static str)
        ensures
            s@ == self.spec_name(),
    {
        match self {
            PubComId::BAndO => "Baltimore and Ohio Railroad",
            PubComId::CAndA => "Camden and Amboy Railroad",
            PubComId::CAndO => "Chesapeake and Ohio Railroad",
            PubComId::LV => "Lehigh Valley Railroad",
            PubComId::NAndW => "Norfolk and Western Railway",
            PubComId::PRR => "Pennsylvania Railroad",
            PubComId::PAndLE => "Pittsburgh & Lake Erie Railroad",
            PubComId::SRR => "Strasburg Rail Road",
        }
    }

    /// Returns the possible values of `PubComId`, in their fixed order
    pub fn values() -> (v: Vec<PubComId>)
        ensures
            v@ == PubComId::all(),
    {
        let mut v: Vec<PubComId> = Vec::new();
        v.push(PubComId::BAndO);
        v.push(PubComId::CAndA);
        v.push(PubComId::CAndO);
        v.push(PubComId::LV);
        v.push(PubComId::NAndW);
        v.push(PubComId::PRR);
        v.push(PubComId::PAndLE);
        v.push(PubComId::SRR);
        assert(v@ =~= PubComId::all());
        v
    }

    /// The short form in which this `PubComId` is written, as a sequence of characters.
    pub open spec fn spec_label(self) -> Seq<char> {
        match self {
            PubComId::BAndO => "B&O"@,
            PubComId::CAndA => "C&A"@,
            PubComId::CAndO => "C&O"@,
            PubComId::LV => "LV"@,
            PubComId::NAndW => "N&W"@,
            PubComId::PRR => "PRR"@,
            PubComId::PAndLE => "P&LE"@,
            PubComId::SRR => "SRR"@,
        }
    }

    /// Returns the short form in which this `PubComId` is written
    pub fn label(&self) -> (s: &'static str)
        ensures
            s@ == self.spec_label(),
    {
        match self {
            PubComId::BAndO => "B&O",
            PubComId::CAndA => "C&A",
            PubComId::CAndO => "C&O",
            PubComId::LV => "LV",
            PubComId::NAndW => "N&W",
            PubComId::PRR => "PRR",
            PubComId::PAndLE => "P&LE",
            PubComId::SRR => "SRR",
        }
    }

    /// The public company that a text names, if any.
    pub open spec fn spec_parse(s: Seq<char>) -> Option<PubComId> {
        if s == "B&O"@ {
            Some(PubComId::BAndO)
        } else if s == "C&A"@ {
            Some(PubComId::CAndA)
        } else if s == "C&O"@ {
            Some(PubComId::CAndO)
        } else if s == "LV"@ {
            Some(PubComId::LV)
        } else if s == "N&W"@ {
            Some(PubComId::NAndW)
        } else if s == "PRR"@ {
            Some(PubComId::PRR)
        } else if s == "P&LE"@ {
            Some(PubComId::PAndLE)
        } else if s == "SRR"@ {
            Some(PubComId::SRR)
        } else {
            None
        }
    }

    /// Reads a public company from the text that names it.
    pub fn parse(s: &str) -> (r: Option<PubComId>)
        ensures
            r == PubComId::spec_parse(s@),
    {
        if same_text(s, "B&O") {
            Some(PubComId::BAndO)
        } else if same_text(s, "C&A") {
            Some(PubComId::CAndA)
        } else if same_text(s, "C&O") {
            Some(PubComId::CAndO)
        } else if same_text(s, "LV") {
            Some(PubComId::LV)
        } else if same_text(s, "N&W") {
            Some(PubComId::NAndW)
        } else if same_text(s, "PRR") {
            Some(PubComId::PRR)
        } else if same_text(s, "P&LE") {
            Some(PubComId::PAndLE)
        } else if same_text(s, "SRR") {
            Some(PubComId::SRR)
        } else {
            None
        }
    }
}

impl std::str::FromStr for PubComId {
    type Err = String;

    fn from_str(s: &str) -> (r: Result<Self, Self::Err>)
        ensures
            match PubComId::spec_parse(s@) {
                Some(id) => r == Ok::<PubComId, String>(id),
                None => r is Err && r->Err_0@ == parse_failure_text(s@, "PubComId"@),
            },
    {
        match PubComId::parse(s) {
            Some(id) => Ok(id),
            None => Err(parse_failure(s, "PubComId")),
        }
    }
}

/// The number of private companies.
pub const PRIV_COM_COUNT: usize = 6;

/// The face cost at which the Delaware and Raritan Canal is first offered.
pub const D_AND_R_COST: u32 = 20;

/// Identifies a private company
#[derive(Clone, Copy, Debug, PartialEq, Eq, Structural, Hash)]
pub enum PrivComId {
    /// Delaware and Raritan Canal, with the face cost at which it is on offer
    DAndR(u32),
    /// Columbia-Philadelphia Railroad
    CToP,
    /// Baltimore and Susquehanna Railroad
    BAndS,
    /// Chesapeake and Ohio Canal
    CAndO,
    /// Baltimore and Ohio Railroad
    BAndO,
    /// Cornelius Vanderbilt
    CV,
}

impl PrivComId {
    /// The position of this company in the list of private companies,
    /// which is ordered by face cost.
    pub open spec fn index(self) -> int {
        match self {
            PrivComId::DAndR(_) => 0,
            PrivComId::CToP => 1,
            PrivComId::BAndS => 2,
            PrivComId::CAndO => 3,
            PrivComId::BAndO => 4,
            PrivComId::CV => 5,
        }
    }

    /// The face cost of this company.
    pub open spec fn spec_cost(self) -> nat {
        match self {
            PrivComId::DAndR(cost) => cost as nat,
            PrivComId::CToP => 40,
            PrivComId::BAndS => 50,
            PrivComId::CAndO => 80,
            PrivComId::BAndO => 100,
            PrivComId::CV => 200,
        }
    }

    /// What this company pays its owner each time revenue is collected.
    pub open spec fn spec_revenue(self) -> nat {
        match self {
            PrivComId::DAndR(_) => 5,
            PrivComId::CToP => 10,
            PrivComId::BAndS => 10,
            PrivComId::CAndO => 15,
            PrivComId::BAndO => 0,
            PrivComId::CV => 30,
        }
    }

    /// The private companies as they are first offered, in ascending order of face cost.
    pub open spec fn all() -> Seq<PrivComId> {
        seq![
            PrivComId::DAndR(20),
            PrivComId::CToP,
            PrivComId::BAndS,
            PrivComId::CAndO,
            PrivComId::BAndO,
            PrivComId::CV,
        ]
    }

    /// The company that is offered once this one is sold: the next of
    /// `all()`, which costs more. The last company has none.
    pub open spec fn spec_successor(self) -> Option<PrivComId> {
        if self.index() + 1 < 6 {
            Some(PrivComId::all()[self.index() + 1])
        } else {
            None
        }
    }

    /// The company that follows another stands one position further on.
    pub proof fn lemma_successor(lot: PrivComId)
        ensures
            lot.spec_successor() matches Some(next) ==> next.index() == lot.index() + 1 && !(next is DAndR),
    {
    }

    /// Returns the position of this company in the list of private companies
    pub fn ordinal(self) -> (i: usize)
        ensures
            i == self.index(),
            i < 6,
    {
        match self {
            PrivComId::DAndR(_) => 0,
            PrivComId::CToP => 1,
            PrivComId::BAndS => 2,
            PrivComId::CAndO => 3,
            PrivComId::BAndO => 4,
            PrivComId::CV => 5,
        }
    }

    /// The name of this `PrivComId`, as a sequence of characters.
    pub open spec fn spec_name(self) -> Seq<char> {
        match self {
            PrivComId::DAndR(_) => "Delaware and Raritan Canal"@,
            PrivComId::CToP => "Columbia-Philadelphia Railroad"@,
            PrivComId::BAndS => "Baltimore and Susquehanna Railroad"@,
            PrivComId::CAndO => "Chesapeake and Ohio Canal"@,
            PrivComId::BAndO => "Baltimore and Ohio Railroad"@,
            PrivComId::CV => "Cornelius Vanderbilt"@,
        }
    }

    /// Returns the name of this `PrivComId`
    pub fn name(&self) -> (s: &'static str)
        ensures
            s@ == self.spec_name(),
    {
        match self {
            PrivComId::DAndR(_) => "Delaware and Raritan Canal",
            PrivComId::CToP => "Columbia-Philadelphia Railroad",
            PrivComId::BAndS => "Baltimore and Susquehanna Railroad",
            PrivComId::CAndO => "Chesapeake and Ohio Canal",
            PrivComId::BAndO => "Baltimore and Ohio Railroad",
            PrivComId::CV => "Cornelius Vanderbilt",
        }
    }

    /// Returns the cost of this `PrivComId`
    pub fn cost(self) -> (c: u32)
        ensures
            c == self.spec_cost(),
    {
        match self {
            PrivComId::DAndR(cost) => cost,
            PrivComId::CToP => 40,
            PrivComId::BAndS => 50,
            PrivComId::CAndO => 80,
            PrivComId::BAndO => 100,
            PrivComId::CV => 200,
        }
    }

    /// Returns the revenue of this `PrivComId`
    pub fn revenue(self) -> (r: u32)
        ensures
            r == self.spec_revenue(),
    {
        match self {
            PrivComId::DAndR(_) => 5,
            PrivComId::CToP => 10,
            PrivComId::BAndS => 10,
            PrivComId::CAndO => 15,
            PrivComId::BAndO => 0,
            PrivComId::CV => 30,
        }
    }

    /// Returns the possible values of `PrivComId`, in ascending order of face cost
    pub fn values() -> (v: Vec<PrivComId>)
        ensures
            v@ == PrivComId::all(),
    {
        let mut v: Vec<PrivComId> = Vec::new();
        v.push(PrivComId::DAndR(20));
        v.push(PrivComId::CToP);
        v.push(PrivComId::BAndS);
        v.push(PrivComId::CAndO);
        v.push(PrivComId::BAndO);
        v.push(PrivComId::CV);
        assert(v@ =~= PrivComId::all());
        v
    }

    /// Returns the private company that is offered once this one is sold, if any
    pub fn successor(self) -> (r: Option<PrivComId>)
        ensures
            r == self.spec_successor(),
    {
        match self {
            PrivComId::DAndR(_) => Some(PrivComId::CToP),
            PrivComId::CToP => Some(PrivComId::BAndS),
            PrivComId::BAndS => Some(PrivComId::CAndO),
            PrivComId::CAndO => Some(PrivComId::BAndO),
            PrivComId::BAndO => Some(PrivComId::CV),
            PrivComId::CV => None,
        }
    }

    /// The short form in which this `PrivComId` is written, as a sequence of characters.
    pub open spec fn spec_label(self) -> Seq<char> {
        match self {
            PrivComId::DAndR(_) => "D&R"@,
            PrivComId::CToP => "C-P"@,
            PrivComId::BAndS => "B&S"@,
            PrivComId::CAndO => "C&O"@,
            PrivComId::BAndO => "B&O"@,
            PrivComId::CV => "CV"@,
        }
    }

    /// Returns the short form in which this `PrivComId` is written
    pub fn label(&self) -> (s: &'static str)
        ensures
            s@ == self.spec_label(),
    {
        match self {
            PrivComId::DAndR(_) => "D&R",
            PrivComId::CToP => "C-P",
            PrivComId::BAndS => "B&S",
            PrivComId::CAndO => "C&O",
            PrivComId::BAndO => "B&O",
            PrivComId::CV => "CV",
        }
    }

    /// The private company that a text names, if any.
    pub open spec fn spec_parse(s: Seq<char>) -> Option<PrivComId> {
        if s == "D&R"@ {
            Some(PrivComId::DAndR(20))
        } else if s == "C-P"@ {
            Some(PrivComId::CToP)
        } else if s == "B&S"@ {
            Some(PrivComId::BAndS)
        } else if s == "C&O"@ {
            Some(PrivComId::CAndO)
        } else if s == "B&O"@ {
            Some(PrivComId::BAndO)
        } else if s == "CV"@ {
            Some(PrivComId::CV)
        } else {
            None
        }
    }

    /// Reads a private company from the text that names it.
    pub fn parse(s: &str) -> (r: Option<PrivComId>)
        ensures
            r == PrivComId::spec_parse(s@),
    {
        if same_text(s, "D&R") {
            Some(PrivComId::DAndR(20))
        } else if same_text(s, "C-P") {
            Some(PrivComId::CToP)
        } else if same_text(s, "B&S") {
            Some(PrivComId::BAndS)
        } else if same_text(s, "C&O") {
            Some(PrivComId::CAndO)
        } else if same_text(s, "B&O") {
            Some(PrivComId::BAndO)
        } else if same_text(s, "CV") {
            Some(PrivComId::CV)
        } else {
            None
        }
    }
}

impl std::str::FromStr for PrivComId {
    type Err = String;

    fn from_str(s: &str) -> (r: Result<Self, Self::Err>)
        ensures
            match PrivComId::spec_parse(s@) {
                Some(id) => r == Ok::<PrivComId, String>(id),
                None => r is Err && r->Err_0@ == parse_failure_text(s@, "PrivComId"@),
            },
    {
        match PrivComId::parse(s) {
            Some(id) => Ok(id),
            None => Err(parse_failure(s, "PrivComId")),
        }
    }
}

/// Represents the terrain of a hex
#[derive(Clone, Copy, Debug, PartialEq, Eq, Structural, Hash)]
pub enum TerrainId {
    /// Plain hex terrain
    Plain,
    /// River hex terrain
    River,
    /// Mountain hex terrain
    Mountain,
}

impl TerrainId {
    /// The cost of laying tiles on this terrain.
    pub open spec fn spec_cost(self) -> nat {
        match self {
            TerrainId::Plain => 0,
            TerrainId::River => 40,
            TerrainId::Mountain => 80,
        }
    }

    /// Returns the cost of laying tiles on this `TerrainId`
    pub fn cost(self) -> (c: u32)
        ensures
            c == self.spec_cost(),
    {
        match self {
            TerrainId::Plain => 0,
            TerrainId::River => 40,
            TerrainId::Mountain => 80,
        }
    }

    /// The terrain that a text names, if any.
    pub open spec fn spec_parse(s: Seq<char>) -> Option<TerrainId> {
        if s == "Plain"@ {
            Some(TerrainId::Plain)
        } else if s == "River"@ {
            Some(TerrainId::River)
        } else if s == "Mountain"@ {
            Some(TerrainId::Mountain)
        } else {
            None
        }
    }

    /// Reads a terrain from the text that names it.
    pub fn parse(s: &str) -> (r: Option<TerrainId>)
        ensures
            r == TerrainId::spec_parse(s@),
    {
        if same_text(s, "Plain") {
            Some(TerrainId::Plain)
        } else if same_text(s, "River") {
            Some(TerrainId::River)
        } else if same_text(s, "Mountain") {
            Some(TerrainId::Mountain)
        } else {
            None
        }
    }
}

impl Default for TerrainId {
    fn default() -> (t: Self)
        ensures
            t == TerrainId::Plain,
    {
        TerrainId::Plain
    }
}

impl std::str::FromStr for TerrainId {
    type Err = String;

    fn from_str(s: &str) -> (r: Result<Self, Self::Err>)
        ensures
            match TerrainId::spec_parse(s@) {
                Some(id) => r == Ok::<TerrainId, String>(id),
                None => r is Err && r->Err_0@ == parse_failure_text(s@, "TerrainId"@),
            },
    {
        match TerrainId::parse(s) {
            Some(id) => Ok(id),
            None => Err(parse_failure(s, "TerrainId")),
        }
    }
}

/// Represents a train
#[derive(Clone, Copy, Debug, PartialEq, Eq, Structural, Hash, PartialOrd, Ord)]
pub enum TrainId {
    /// 2 range train
    Range2,
    /// 3 range train
    Range3,
    /// 4 range train
    Range4,
    /// 5 range train
    Range5,
    /// 6 range train
    Range6,
    /// Diesel train
    Diesel,
}

impl TrainId {

    /// The train that a text names, if any.
    pub open spec fn spec_parse(s: Seq<char>) -> Option<TrainId> {
        if s == "2"@ {
            Some(TrainId::Range2)
        } else if s == "3"@ {
            Some(TrainId::Range3)
        } else if s == "4"@ {
            Some(TrainId::Range4)
        } else if s == "5"@ {
            Some(TrainId::Range5)
        } else if s == "6"@ {
            Some(TrainId::Range6)
        } else if s == "D"@ {
            Some(TrainId::Diesel)
        } else {
            None
        }
    }

    /// Reads a train from the text that names it.
    pub fn parse(s: &str) -> (r: Option<TrainId>)
        ensures
            r == TrainId::spec_parse(s@),
    {
        if same_text(s, "2") {
            Some(TrainId::Range2)
        } else if same_text(s, "3") {
            Some(TrainId::Range3)
        } else if same_text(s, "4") {
            Some(TrainId::Range4)
        } else if same_text(s, "5") {
            Some(TrainId::Range5)
        } else if same_text(s, "6") {
            Some(TrainId::Range6)
        } else if same_text(s, "D") {
            Some(TrainId::Diesel)
        } else {
            None
        }
    }
}

impl std::str::FromStr for TrainId {
    type Err = String;

    fn from_str(s: &str) -> (r: Result<Self, Self::Err>)
        ensures
            match TrainId::spec_parse(s@) {
                Some(id) => r == Ok::<TrainId, String>(id),
                None => r is Err && r->Err_0@ == parse_failure_text(s@, "TrainId"@),
            },
    {
        match TrainId::parse(s) {
            Some(id) => Ok(id),
            None => Err(parse_failure(s, "TrainId")),
        }
    }
}

/// Represents a game phase
#[derive(Clone, Copy, Debug, PartialEq, Eq, Structural, Hash, PartialOrd, Ord)]
pub enum PhaseId {
    /// 2 train phase
    Phase2,
    /// 3 train phase
    Phase3,
    /// 4 train phase
    Phase4,
    /// 5 train phase
    Phase5,
    /// 6 train phase
    Phase6,
    /// Diesel phase
    PhaseD,
}

impl PhaseId {
    /// The number of operating rounds that follow a stock round in this phase.
    pub open spec fn spec_operating_round_count(self) -> nat {
        match self {
            PhaseId::Phase2 => 1,
            PhaseId::Phase3 => 2,
            PhaseId::Phase4 => 2,
            PhaseId::Phase5 => 3,
            PhaseId::Phase6 => 3,
            PhaseId::PhaseD => 3,
        }
    }

    /// Returns the number of operating rounds that follow a stock round in this `PhaseId`
    pub fn operating_round_count(self) -> (n: u32)
        ensures
            n == self.spec_operating_round_count(),
            n >= 1,
    {
        match self {
            PhaseId::Phase2 => 1,
            PhaseId::Phase3 => 2,
            PhaseId::Phase4 => 2,
            PhaseId::Phase5 => 3,
            PhaseId::Phase6 => 3,
            PhaseId::PhaseD => 3,
        }
    }
}

/// The state of the round that a game is in.
#[verifier::ext_equal]
pub enum RoundView {
    PrivAuction(AuctionView),
    StockRound(StockRoundView),
    OperatingRound(OperatingRoundView),
}

/// Represents a game round
#[derive(Debug)]
pub enum RoundId {
    /// Private auction
    PrivAuction(PrivAuction),
    /// Stock round
    StockRound(StockRound),
    /// Operating round
    OperatingRound(OperatingRound),
}

impl View for RoundId {
    type V = RoundView;

    open spec fn view(&self) -> RoundView {
        match self {
            RoundId::PrivAuction(priv_auction) => RoundView::PrivAuction(priv_auction@),
            RoundId::StockRound(stock_round) => RoundView::StockRound(stock_round@),
            RoundId::OperatingRound(operating_round) => RoundView::OperatingRound(operating_round@),
        }
    }
}

} // verus!
