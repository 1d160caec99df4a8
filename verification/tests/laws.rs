use chesapeake::economy::{ParTrack, Shares, StockChart};
use chesapeake::game::{Action, Game, Ledger};
use chesapeake::geography::{GameMap, TileSet};
use chesapeake::ids::{PrivComId, PubComId, RoundId};
use chesapeake::train_set::TrainSet;

fn chart_with(start_of_70: u32) -> StockChart {
    StockChart::new(vec![
        vec![100, 90, 80, 70, 60, 50],
        vec![105, 95, 85, 75, 65, 55],
        vec![110, 100, 90, 80, 95, 58],
        vec![120, 110, 100, 80, 70, 55],
        vec![130, 120, start_of_70, 65, 59, 50],
    ])
    .unwrap()
}

fn game_with(player_count: usize, chart: StockChart) -> Game {
    Game::new(
        player_count,
        GameMap::new(2, 2),
        TileSet::new(),
        TrainSet::new(),
        chart,
        ParTrack::new(vec![70, 80, 95]).unwrap(),
    )
}

fn every_action() -> Vec<Action> {
    let mut actions = vec![Action::BuyCheapestPriv, Action::Pass, Action::EndTurn];
    for private in PrivComId::values() {
        for amount in [0u32, 15, 20, 25, 30, 45, 100, 205, 2000] {
            actions.push(Action::BidPriv(private, amount));
        }
    }
    for pub_com in PubComId::values() {
        actions.push(Action::BuyIpoShare(pub_com));
        actions.push(Action::BuyPoolShare(pub_com));
        for par in [60u32, 70, 80, 95] {
            actions.push(Action::BuyPresidency(pub_com, par));
        }
        for count in 0..7u32 {
            actions.push(Action::SellShares(pub_com, count));
        }
    }
    actions
}

fn legality(game: &Game) -> Vec<bool> {
    every_action().into_iter().map(|action| game.allowed(action)).collect()
}

fn ledger_is_balanced(game: &Game) {
    for pub_com in PubComId::values() {
        let mut total = game.ipo().count(pub_com) + game.pool().count(pub_com);
        let mut holders = game.ipo().president(pub_com) as u32 + game.pool().president(pub_com) as u32;
        for seat in 0..game.player_count() {
            total += game.player(seat).shares().count(pub_com);
            holders += game.player(seat).shares().president(pub_com) as u32;
        }
        assert_eq!(total, 8);
        assert_eq!(holders, 1);
    }
}

/// A long game: the auction with bids and passes, a stock round with
/// purchases, and a second stock round with sales.
fn script() -> Vec<Action> {
    let mut actions = vec![
        Action::BidPriv(PrivComId::DAndR(20), 25),
        Action::BidPriv(PrivComId::DAndR(20), 30),
        Action::Pass,
        Action::Pass,
        Action::BuyCheapestPriv,
        Action::Pass,
        Action::Pass,
        Action::Pass,
        Action::BuyCheapestPriv,
        Action::BidPriv(PrivComId::CAndO, 90),
        Action::BuyCheapestPriv,
        Action::BuyCheapestPriv,
        Action::BidPriv(PrivComId::CV, 210),
        Action::BidPriv(PrivComId::CV, 215),
        Action::Pass,
        Action::Pass,
        Action::BuyPresidency(PubComId::PRR, 70),
        Action::BuyPresidency(PubComId::LV, 80),
        Action::BuyIpoShare(PubComId::PRR),
        Action::BuyIpoShare(PubComId::PRR),
        Action::BuyIpoShare(PubComId::PRR),
        Action::BuyIpoShare(PubComId::LV),
        Action::BuyIpoShare(PubComId::PRR),
        Action::BuyPresidency(PubComId::SRR, 95),
        Action::SellShares(PubComId::PRR, 1),
        Action::EndTurn,
    ];
    for _ in 0..6 {
        actions.push(Action::Pass);
    }
    actions
}

fn play(game: &mut Game, mut check: impl FnMut(&Game, Action, bool, usize)) {
    for action in script() {
        if matches!(action, Action::BuyPresidency(_, _)) {
            while let RoundId::PrivAuction(auction) = game.round() {
                let actor = game.current_player();
                let lot = auction.current().unwrap();
                let action = if game.allowed(Action::BuyCheapestPriv) {
                    Action::BuyCheapestPriv
                } else if game.allowed(Action::Pass) {
                    Action::Pass
                } else {
                    Action::BidPriv(lot, auction.max_bid(lot) + 5)
                };
                let done = game.perform(action);
                assert!(done);
                check(game, action, done, actor);
            }
        }
        let actor = game.current_player();
        let done = game.perform(action);
        check(game, action, done, actor);
    }
    while game.in_stock_round() {
        let actor = game.current_player();
        let done = game.perform(Action::Pass);
        check(game, Action::Pass, done, actor);
    }
    assert!(matches!(game.round(), RoundId::OperatingRound(_)));
    game.enter_stock_round();
    let sales = [
        Action::SellShares(PubComId::PRR, 2),
        Action::SellShares(PubComId::LV, 1),
        Action::EndTurn,
        Action::SellShares(PubComId::PRR, 1),
        Action::SellShares(PubComId::PRR, 3),
        Action::BuyPoolShare(PubComId::PRR),
        Action::SellShares(PubComId::SRR, 1),
        Action::EndTurn,
        Action::BuyPoolShare(PubComId::LV),
        Action::BuyIpoShare(PubComId::SRR),
    ];
    for action in sales {
        let actor = game.current_player();
        let done = game.perform(action);
        check(game, action, done, actor);
    }
}

#[test]
fn shares_add_up_to_eight_with_one_president_after_every_move() {
    for player_count in 2..=6usize {
        let mut game = game_with(player_count, chart_with(70));
        ledger_is_balanced(&game);
        let mut made = 0;
        play(&mut game, |game, _, done, _| {
            ledger_is_balanced(game);
            made += done as u32;
        });
        assert!(made >= 20);
    }
}

#[test]
fn buyers_stay_within_the_certificate_limit() {
    for start in [50u32, 70] {
        for player_count in 2..=6usize {
            let mut game = game_with(player_count, chart_with(start));
            let mut purchases = 0;
            play(&mut game, |game, action, done, actor| {
                let bought = matches!(
                    action,
                    Action::BuyIpoShare(_) | Action::BuyPoolShare(_) | Action::BuyPresidency(_, _) | Action::EndTurn
                );
                if done && bought {
                    assert!(game.certificate_count(game.player(actor)) <= game.certificate_limit());
                    purchases += 1;
                }
            });
            assert!(purchases >= 3);
        }
    }
}

#[test]
fn a_sale_can_make_shares_count_again() {
    let mut game = game_with(2, chart_with(70));
    for _ in 0..6 {
        assert!(game.perform(Action::BuyCheapestPriv));
    }
    let first = game.current_player();
    assert!(game.perform(Action::BuyPresidency(PubComId::PRR, 70)));
    for _ in 0..2 {
        assert!(game.perform(Action::Pass));
        assert!(game.perform(Action::BuyIpoShare(PubComId::PRR)));
    }
    assert!(game.perform(Action::Pass));
    assert!(game.perform(Action::Pass));
    game.enter_stock_round();
    while game.current_player() != first {
        assert!(game.perform(Action::Pass));
    }
    assert_eq!(game.certificate_count(game.player(first)), 0);
    assert!(game.perform(Action::SellShares(PubComId::PRR, 1)));
    assert_eq!(game.stock_chart().value(PubComId::PRR), Some(65));
    assert_eq!(game.certificate_count(game.player(first)), 0);
    assert!(game.perform(Action::SellShares(PubComId::PRR, 0)));
    assert!(!game.perform(Action::SellShares(PubComId::PRR, 2)));
    assert!(game.perform(Action::SellShares(PubComId::PRR, 1)));
    assert_eq!(game.stock_chart().value(PubComId::PRR), Some(59));
    assert_eq!(game.certificate_count(game.player(first)), 2);
}

#[test]
fn the_auction_depends_on_the_moves_alone() {
    for player_count in 2..=6usize {
        let mut one = game_with(player_count, chart_with(70));
        let mut other = Game::new(
            player_count,
            GameMap::new(5, 7),
            TileSet::new(),
            TrainSet::new(),
            chart_with(50),
            ParTrack::new(vec![70]).unwrap(),
        );
        for action in script() {
            if !matches!(one.round(), RoundId::PrivAuction(_)) {
                break;
            }
            assert_eq!(one.allowed(action), other.allowed(action));
            assert_eq!(one.perform(action), other.perform(action));
            assert_eq!(one.current_player(), other.current_player());
            assert_eq!(one.priority_player(), other.priority_player());
            for seat in 0..player_count {
                assert_eq!(one.player(seat).capital(), other.player(seat).capital());
                for private in PrivComId::values() {
                    assert_eq!(one.player(seat).owns(private), other.player(seat).owns(private));
                }
            }
            match (one.round(), other.round()) {
                (RoundId::PrivAuction(a), RoundId::PrivAuction(b)) => {
                    assert_eq!(a.current(), b.current());
                    assert_eq!(a.passes(), b.passes());
                    for seat in 0..player_count {
                        assert_eq!(a.bids(one.player(seat)), b.bids(other.player(seat)));
                    }
                },
                (RoundId::StockRound(_), RoundId::StockRound(_)) => {},
                _ => panic!("the games are in different rounds"),
            }
        }
    }
}

#[test]
fn a_ledger_given_back_leaves_legality_as_it_was() {
    let mut game = game_with(3, chart_with(70));
    let mut checked = 0;
    play(&mut game, |_, _, _, _| {});
    let mut again = game_with(3, chart_with(70));
    play(&mut again, |game, _, _, _| {
        let before = legality(game);
        let ledger = game.ledger();
        assert!(game.ledger_fits(&ledger));
        assert_eq!(ledger.player_count(), 3);
        for seat in 0..3 {
            assert_eq!(ledger.capital(seat), game.player(seat).capital());
            for pub_com in PubComId::values() {
                assert_eq!(ledger.shares(seat).count(pub_com), game.player(seat).shares().count(pub_com));
                assert_eq!(
                    ledger.shares(seat).president(pub_com),
                    game.player(seat).shares().president(pub_com)
                );
            }
        }
        checked += before.iter().filter(|allowed| **allowed).count();
    });
    assert!(checked > 50);
    let ledger = game.ledger();
    let before = legality(&game);
    assert!(game.restore_ledger(&ledger));
    assert_eq!(legality(&game), before);
    assert_eq!(legality(&again), before);
    assert!(again.restore_ledger(&ledger));
    assert_eq!(legality(&again), before);
    for seat in 0..3 {
        assert_eq!(again.player(seat).capital(), game.player(seat).capital());
    }
}

#[test]
fn a_ledger_is_restored_from_its_parts() {
    let mut game = game_with(2, chart_with(70));
    for _ in 0..6 {
        assert!(game.perform(Action::BuyCheapestPriv));
    }
    assert!(game.perform(Action::BuyPresidency(PubComId::PRR, 70)));
    let taken = game.ledger();
    let mut capital = Vec::new();
    let mut shares = Vec::new();
    for seat in 0..2 {
        capital.push(taken.capital(seat));
        let mut counts = [0u32; 8];
        let mut presidencies = [false; 8];
        for pub_com in PubComId::values() {
            counts[pub_com.ordinal()] = taken.shares(seat).count(pub_com);
            presidencies[pub_com.ordinal()] = taken.shares(seat).president(pub_com);
        }
        shares.push(Shares::from_parts(counts, presidencies).unwrap());
    }
    let rebuilt = Ledger::new(capital, shares, *taken.ipo(), *taken.pool());
    let before = legality(&game);
    assert!(game.perform(Action::BuyIpoShare(PubComId::PRR)));
    assert_eq!(game.ipo().count(PubComId::PRR), 5);
    assert!(!game.ledger_fits(&Ledger::new(vec![], vec![], Shares::ipo_shares(), Shares::empty_shares())));
    assert!(game.ledger_fits(&rebuilt));
    assert!(game.restore_ledger(&rebuilt));
    assert_eq!(game.ipo().count(PubComId::PRR), 6);
    // the turn has moved on, the ledger is as it was
    assert!(game.perform(Action::Pass));
    let after = legality(&game);
    for (i, action) in every_action().into_iter().enumerate() {
        if after[i] != before[i] {
            panic!("{:?}: {} then {}", action, before[i], after[i]);
        }
    }
}

#[test]
fn a_ledger_that_does_not_balance_is_refused() {
    let mut game = game_with(2, chart_with(70));
    let fresh = game.ledger();
    let unbalanced = Ledger::new(
        vec![1200, 1200],
        vec![Shares::ipo_shares(), Shares::empty_shares()],
        Shares::ipo_shares(),
        Shares::empty_shares(),
    );
    assert!(!game.ledger_fits(&unbalanced));
    assert!(!game.restore_ledger(&unbalanced));
    assert_eq!(game.player(0).shares().count(PubComId::PRR), 0);
    let in_pool = Ledger::new(
        vec![1200, 1200],
        vec![Shares::empty_shares(), Shares::empty_shares()],
        Shares::empty_shares(),
        Shares::ipo_shares(),
    );
    assert!(!game.ledger_fits(&in_pool));
    assert!(game.perform(Action::BidPriv(PrivComId::DAndR(20), 1000)));
    let poor = Ledger::new(
        vec![999, 1200],
        vec![Shares::empty_shares(), Shares::empty_shares()],
        Shares::ipo_shares(),
        Shares::empty_shares(),
    );
    assert!(!game.ledger_fits(&poor));
    assert!(game.ledger_fits(&fresh));
    let richer = Ledger::new(
        vec![1000, 1],
        vec![Shares::empty_shares(), Shares::empty_shares()],
        Shares::ipo_shares(),
        Shares::empty_shares(),
    );
    assert!(game.restore_ledger(&richer));
    assert_eq!(game.player(0).capital(), 1000);
    assert_eq!(game.player(1).capital(), 1);
}
