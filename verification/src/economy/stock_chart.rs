//! The stock chart: the table of share values and each company's token on it.

use crate::ids::PubComId;
use vstd::prelude::*;

verus! {

/// The column and row of the stock chart on which the token of a company
/// that was floated at a par value starts, for the par values that have one.
pub open spec fn chart_position(par: nat) -> Option<(nat, nat)> {
    if par == 70 {
        Some((4nat, 2nat))
    } else if par == 80 {
        Some((3nat, 3nat))
    } else if par == 95 {
        Some((2nat, 4nat))
    } else {
        None
    }
}

/// The stock chart: the share values, column by column from the top down, and
/// for each public company, by `PubComId::index`, its token if it has one: the
/// column, the place in the column, and how many tokens were already on that
/// field when it was put there.
#[verifier::ext_equal]
pub struct StockChartView {
    pub values: Seq<Seq<u32>>,
    pub tokens: Seq<Option<(nat, nat, nat)>>,
}

impl StockChartView {
    /// Whether the chart has a field at place `y` of column `x`.
    pub open spec fn has_field(values: Seq<Seq<u32>>, x: nat, y: nat) -> bool {
        x < values.len() && y < values[x as int].len()
    }

    /// The chart has the three fields on which tokens start.
    pub open spec fn has_start_fields(values: Seq<Seq<u32>>) -> bool {
        &&& StockChartView::has_field(values, 4, 2)
        &&& StockChartView::has_field(values, 3, 3)
        &&& StockChartView::has_field(values, 2, 4)
    }

    /// The start fields exist, and every token stands on a field of the chart.
    pub open spec fn wf(self) -> bool {
        &&& StockChartView::has_start_fields(self.values)
        &&& self.tokens.len() == 8
        &&& forall|i: int|
            0 <= i < 8 ==> (#[trigger] self.tokens[i] matches Some(t) ==> StockChartView::has_field(
                self.values,
                t.0,
                t.1,
            ))
    }

    /// No company has a token on the chart.
    pub open spec fn has_no_token(self) -> bool {
        forall|i: int| 0 <= i < 8 ==> (#[trigger] self.tokens[i]) is None
    }

    /// A chart with the given values and no token.
    pub open spec fn new(values: Seq<Seq<u32>>) -> StockChartView {
        StockChartView { values, tokens: Seq::new(8, |i: int| None::<(nat, nat, nat)>) }
    }

    /// The share value of `pub_com`, if its token is on the chart.
    pub open spec fn value(self, pub_com: PubComId) -> Option<u32> {
        match self.tokens[pub_com.index()] {
            Some(t) => Some(self.values[t.0 as int][t.1 as int]),
            None => None,
        }
    }

    /// 1 if the token of the company at position `i` stands on the field, else 0.
    pub open spec fn token_at(self, i: int, x: nat, y: nat) -> nat {
        match self.tokens[i] {
            Some(t) => if t.0 == x && t.1 == y {
                1
            } else {
                0
            },
            None => 0,
        }
    }

    /// The number of tokens on a field.
    pub open spec fn token_count_at_position(self, x: nat, y: nat) -> nat {
        self.token_at(0, x, y) + self.token_at(1, x, y) + self.token_at(2, x, y) + self.token_at(
            3,
            x,
            y,
        ) + self.token_at(4, x, y) + self.token_at(5, x, y) + self.token_at(6, x, y)
            + self.token_at(7, x, y)
    }

    /// The share value on the start field of `par`, where `par` has one.
    pub open spec fn start_value(self, par: nat) -> Option<u32> {
        match chart_position(par) {
            Some(p) => Some(self.values[p.0 as int][p.1 as int]),
            None => None,
        }
    }

    /// The token that a company floated at `par` starts with, where `par` has a start field.
    pub open spec fn start_token(self, par: nat) -> Option<(nat, nat, nat)> {
        match chart_position(par) {
            Some(p) => Some((p.0, p.1, self.token_count_at_position(p.0, p.1))),
            None => None,
        }
    }

    /// The chart after the token of `pub_com` was put on the start field of `par`.
    pub open spec fn add_token(self, pub_com: PubComId, par: nat) -> StockChartView {
        StockChartView { tokens: self.tokens.update(pub_com.index(), self.start_token(par)), ..self }
    }

    /// The lowest place of column `x`.
    pub open spec fn floor(self, x: nat) -> nat {
        (self.values[x as int].len() - 1) as nat
    }

    /// The chart after the token of `pub_com` was moved down its column by
    /// `count` places, or to the lowest place of the column if that comes first.
    /// A company without a token stays without.
    pub open spec fn move_down(self, pub_com: PubComId, count: nat) -> StockChartView {
        match self.tokens[pub_com.index()] {
            Some(t) => {
                let y = if t.1 + count <= self.floor(t.0) {
                    t.1 + count
                } else {
                    self.floor(t.0)
                };
                StockChartView {
                    tokens: self.tokens.update(pub_com.index(), Some((t.0, y, t.2))),
                    ..self
                }
            },
            None => self,
        }
    }

    /// Putting a token on a start field and moving one down keep a chart
    /// well-formed, leave the other companies' values alone, and leave the
    /// moved company with a value.
    pub proof fn lemma_tokens(self, pub_com: PubComId, par: nat, count: nat)
        requires
            self.wf(),
        ensures
            chart_position(par) is Some ==> self.add_token(pub_com, par).wf() && self.add_token(
                pub_com,
                par,
            ).value(pub_com) == self.start_value(par) && self.start_value(par) is Some,
            self.move_down(pub_com, count).wf(),
            self.move_down(pub_com, count).value(pub_com) is Some <==> self.value(pub_com) is Some,
            forall|c: PubComId|
                c != pub_com ==> #[trigger] self.add_token(pub_com, par).value(c) == self.value(c),
            forall|c: PubComId|
                c != pub_com ==> #[trigger] self.move_down(pub_com, count).value(c) == self.value(c),
    {
        assert forall|c: PubComId| c != pub_com implies #[trigger] self.add_token(pub_com, par).value(c)
            == self.value(c) by {
            assert(c.index() != pub_com.index());
        }
        assert forall|c: PubComId| c != pub_com implies #[trigger] self.move_down(
            pub_com,
            count,
        ).value(c) == self.value(c) by {
            assert(c.index() != pub_com.index());
        }
        assert(0 <= pub_com.index() < 8);
        if self.tokens[pub_com.index()] is Some {
            let t = self.tokens[pub_com.index()]->Some_0;
            assert(StockChartView::has_field(self.values, t.0, t.1));
        }
    }
}

/// Represents the stock chart for a game
#[derive(Clone, Debug)]
pub struct StockChart {
    values: Vec<Vec<u32>>,
    tokens: [Option<(usize, usize, usize)>; 8],
}

impl View for StockChart {
    type V = StockChartView;

    closed spec fn view(&self) -> StockChartView {
        StockChartView {
            values: self.values.deep_view(),
            tokens: Seq::new(
                8,
                |i: int|
                    match self.tokens@[i] {
                        Some(t) => Some((t.0 as nat, t.1 as nat, t.2 as nat)),
                        None => None,
                    },
            ),
        }
    }
}

impl StockChart {
    /// The values of any `StockChart` are those of its columns.
    proof fn lemma_values(&self)
        ensures
            self@.values.len() == self.values@.len(),
            forall|x: int|
                0 <= x < self.values@.len() ==> (#[trigger] self@.values[x]).len()
                    == self.values@[x]@.len(),
            forall|x: int, y: int|
                0 <= x < self.values@.len() && 0 <= y < self.values@[x]@.len()
                    ==> #[trigger] self@.values[x][y] == self.values@[x]@[y],
    {
        broadcast use vstd::std_specs::vec::group_vec_axioms;
        broadcast use vstd::seq_lib::group_seq_properties;

    }

    fn has_field(values: &Vec<Vec<u32>>, x: usize, y: usize) -> (b: bool)
        ensures
            b == StockChartView::has_field(values.deep_view(), x as nat, y as nat),
    {
        broadcast use vstd::std_specs::vec::group_vec_axioms;

        x < values.len() && y < values[x].len()
    }

    /// Returns the column and the place in it on which the token of a
    /// company floated at `par` starts
    fn par_to_field(par: u32) -> (r: Option<(usize, usize)>)
        ensures
            r is Some <==> chart_position(par as nat) is Some,
            r matches Some(p) ==> chart_position(par as nat) == Some((p.0 as nat, p.1 as nat)),
    {
        if par == 70 {
            Some((4, 2))
        } else if par == 80 {
            Some((3, 3))
        } else if par == 95 {
            Some((2, 4))
        } else {
            None
        }
    }

    /// Returns the token that a company floated at `par` starts with:
    /// the column, the place in it, and the number of tokens already there
    pub fn par_to_position(&self, par: u32) -> (r: Option<(usize, usize, usize)>)
        ensures
            r is Some <==> self@.start_token(par as nat) is Some,
            r matches Some(t) ==> self@.start_token(par as nat) == Some((t.0 as nat, t.1 as nat, t.2 as nat)),
    {
        match StockChart::par_to_field(par) {
            Some(p) => Some((p.0, p.1, self.token_count_at_position(p.0, p.1))),
            None => None,
        }
    }

    /// Returns a stock chart with the given values and no token, if the
    /// chart has the three fields on which tokens start
    pub fn new(values: Vec<Vec<u32>>) -> (r: Option<Self>)
        ensures
            r is Some <==> StockChartView::has_start_fields(values.deep_view()),
            r matches Some(chart) ==> chart@ == StockChartView::new(values.deep_view()) && chart@.wf(),
    {
        if StockChart::has_field(&values, 4, 2) && StockChart::has_field(&values, 3, 3)
            && StockChart::has_field(&values, 2, 4) {
            let chart = StockChart { values, tokens: [None; 8] };
            assert(chart@ =~= StockChartView::new(values.deep_view()));
            Some(chart)
        } else {
            None
        }
    }

    /// Returns the number of tokens on a field
    pub fn token_count_at_position(&self, x: usize, y: usize) -> (n: usize)
        ensures
            n == self@.token_count_at_position(x as nat, y as nat),
    {
        let mut n: usize = 0;
        let mut i: usize = 0;
        while i < 8
            invariant
                i <= 8,
                n <= i,
                n == (if i > 0 { self@.token_at(0, x as nat, y as nat) } else { 0 })
                    + (if i > 1 { self@.token_at(1, x as nat, y as nat) } else { 0 })
                    + (if i > 2 { self@.token_at(2, x as nat, y as nat) } else { 0 })
                    + (if i > 3 { self@.token_at(3, x as nat, y as nat) } else { 0 })
                    + (if i > 4 { self@.token_at(4, x as nat, y as nat) } else { 0 })
                    + (if i > 5 { self@.token_at(5, x as nat, y as nat) } else { 0 })
                    + (if i > 6 { self@.token_at(6, x as nat, y as nat) } else { 0 })
                    + (if i > 7 { self@.token_at(7, x as nat, y as nat) } else { 0 }),
            decreases 8 - i,
        {
            match self.tokens[i] {
                Some(t) => {
                    if t.0 == x && t.1 == y {
                        n = n + 1;
                    }
                },
                None => {},
            }
            i = i + 1;
        }
        n
    }

    /// Returns the share value on the start field of `par`, if `par` has one
    pub fn start_value(&self, par: u32) -> (r: Option<u32>)
        requires
            self@.wf(),
        ensures
            r == self@.start_value(par as nat),
    {
        proof {
            self.lemma_values();
        }
        match StockChart::par_to_field(par) {
            Some(p) => Some(self.values[p.0][p.1]),
            None => None,
        }
    }

    /// Puts the token of `pub_com` on the start field of `par`
    pub fn add_token(&mut self, pub_com: PubComId, par: u32)
        requires
            old(self)@.wf(),
            chart_position(par as nat) is Some,
        ensures
            final(self)@ == old(self)@.add_token(pub_com, par as nat),
            final(self)@.wf(),
    {
        proof {
            self@.lemma_tokens(pub_com, par as nat, 0);
        }
        match self.par_to_position(par) {
            Some(token) => {
                self.tokens[pub_com.ordinal()] = Some(token);
                assert(self@ =~= old(self)@.add_token(pub_com, par as nat));
            },
            None => {},
        }
    }

    /// Moves the token of `pub_com` down its column by `count` places, or
    /// to the lowest place of the column if that comes first
    pub fn move_down(&mut self, pub_com: PubComId, count: usize)
        requires
            old(self)@.wf(),
        ensures
            final(self)@ == old(self)@.move_down(pub_com, count as nat),
            final(self)@.wf(),
    {
        proof {
            self@.lemma_tokens(pub_com, 0, count as nat);
            self.lemma_values();
        }
        let i: usize = pub_com.ordinal();
        match self.tokens[i] {
            Some(t) => {
                assert(self@.tokens[i as int] == Some((t.0 as nat, t.1 as nat, t.2 as nat)));
                let floor: usize = self.values[t.0].len() - 1;
                let y: usize = if count <= floor - t.1 {
                    t.1 + count
                } else {
                    floor
                };
                self.tokens[i] = Some((t.0, y, t.2));
                assert(self@ =~= old(self)@.move_down(pub_com, count as nat));
            },
            None => {
                assert(self@.tokens[i as int] is None);
            },
        }
    }

    /// Returns the share value of `pub_com` on this `StockChart`
    pub fn value(&self, pub_com: PubComId) -> (r: Option<u32>)
        requires
            self@.wf(),
        ensures
            r == self@.value(pub_com),
    {
        proof {
            self.lemma_values();
        }
        match self.tokens[pub_com.ordinal()] {
            Some(t) => {
                assert(self@.tokens[pub_com.index()] == Some((t.0 as nat, t.1 as nat, t.2 as nat)));
                Some(self.values[t.0][t.1])
            },
            None => None,
        }
    }
}

} // verus!
