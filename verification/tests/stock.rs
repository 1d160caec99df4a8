use chesapeake::economy::{ParTrack, StockChart};
use chesapeake::game::{Action, Game};
use chesapeake::geography::{City, Content, GameMap, Hex, TileSet};
use chesapeake::ids::{PubComId, RoundId, TerrainId};
use chesapeake::rounds::{OperatingRound, StockRound};
use chesapeake::train_set::TrainSet;

fn chart_with(start_of_70: u32) -> StockChart {
    StockChart::new(vec![
        vec![100, 90, 80, 70, 60, 50],
        vec![105, 95, 85, 75, 65, 55],
        vec![110, 100, 90, 80, 95, 58],
        vec![120, 110, 100, 80, 70, 55],
        vec![130, 120, start_of_70, 65, 59, 50],
    ])
    .unwrap()
}

fn map_with_home_of_prr() -> GameMap {
    let mut map = GameMap::new(2, 2);
    let city = City::new(30, 1, Some("Philadelphia".to_string()), Some(PubComId::PRR));
    assert!(map.set_hex(1, 0, Hex::new(TerrainId::Plain, Some(Content::Cities(vec![city])), None)));
    map.set_home(PubComId::PRR, 1, 0, None);
    map
}

fn stock_game_with(player_count: usize, chart: StockChart) -> Game {
    let mut game = Game::new(
        player_count,
        map_with_home_of_prr(),
        TileSet::new(),
        TrainSet::new(),
        chart,
        ParTrack::new(vec![70, 80, 95]).unwrap(),
    );
    for _ in 0..6 {
        assert!(game.perform(Action::BuyCheapestPriv));
    }
    assert!(game.in_stock_round());
    game
}

fn stock_game(player_count: usize) -> Game {
    stock_game_with(player_count, chart_with(70))
}

fn second_stock_round(game: &mut Game) {
    while game.in_stock_round() {
        assert!(game.perform(Action::Pass));
    }
    assert!(matches!(game.round(), RoundId::OperatingRound(_)));
    game.enter_stock_round();
    assert!(game.in_stock_round());
}

fn shares_total(game: &Game, pub_com: PubComId) -> u32 {
    let mut total = game.ipo().count(pub_com) + game.pool().count(pub_com);
    for seat in 0..game.player_count() {
        total += game.player(seat).shares().count(pub_com);
    }
    total
}

fn presidents(game: &Game, pub_com: PubComId) -> u32 {
    let mut holders = game.ipo().president(pub_com) as u32 + game.pool().president(pub_com) as u32;
    for seat in 0..game.player_count() {
        holders += game.player(seat).shares().president(pub_com) as u32;
    }
    holders
}

#[test]
fn stock_round_state_changes() {
    let mut round = StockRound::new(true);
    let seller = chesapeake::economy::Player::new(2, 10);
    assert!(round.sell_allowed());
    assert!(!round.action_performed());
    assert!(!round.has_sold(PubComId::LV, &seller));
    round.set_action_performed();
    round.insert_pub_com_sold(PubComId::LV, &seller);
    round.insert_pub_com_sold(PubComId::LV, &seller);
    assert!(round.action_performed());
    assert!(round.has_sold(PubComId::LV, &seller));
    assert!(!round.has_sold(PubComId::PRR, &seller));
    assert!(!round.has_sold(PubComId::LV, &chesapeake::economy::Player::new(1, 10)));
    round.unset_action_performed();
    assert!(!round.action_performed());
    assert!(round.has_sold(PubComId::LV, &seller));
    round.set_action_performed();
    round.end_turn();
    assert!(!round.action_performed());
    assert!(!round.has_sold(PubComId::LV, &seller));
    assert!(round.sell_allowed());
    assert!(!StockRound::new(false).sell_allowed());
}

#[test]
fn operating_round_lists_companies_in_order() {
    let mut marks = [false; 8];
    marks[5] = true;
    marks[1] = true;
    let round = OperatingRound::new(2, marks);
    assert_eq!(round.operating_rounds_left(), 2);
    assert_eq!(round.pub_coms_to_operate(), vec![PubComId::CAndA, PubComId::PRR]);
    assert!(round.operates(PubComId::PRR));
    assert!(!round.operates(PubComId::LV));
}

#[test]
fn certificate_limits_by_player_count() {
    let limits = [(2usize, 20u32), (3, 20), (4, 16), (5, 13), (6, 11)];
    for (player_count, limit) in limits {
        let game = stock_game(player_count);
        assert_eq!(game.certificate_limit(), limit);
    }
}

#[test]
fn presidency_at_par_70_costs_140() {
    let mut game = stock_game(2);
    let buyer = game.current_player();
    let before = game.player(buyer).capital();
    assert!(!game.buy_presidency_allowed(PubComId::PRR, 60));
    assert!(!game.buy_ipo_share_allowed(PubComId::PRR));
    assert!(game.buy_presidency_allowed(PubComId::PRR, 70));
    game.buy_presidency(PubComId::PRR, 70);
    assert_eq!(game.player(buyer).capital(), before - 140);
    assert_eq!(game.player(buyer).shares().count(PubComId::PRR), 2);
    assert!(game.player(buyer).shares().president(PubComId::PRR));
    assert_eq!(game.ipo().count(PubComId::PRR), 6);
    assert!(!game.ipo().president(PubComId::PRR));
    assert_eq!(game.pool().count(PubComId::PRR), 0);
    assert_eq!(game.president(PubComId::PRR), Some(buyer));
    assert_eq!(game.par_track().value(PubComId::PRR), Some(70));
    assert_eq!(game.stock_chart().value(PubComId::PRR), Some(70));
    assert_eq!(game.current_player(), 1 - buyer);
    assert!(!game.buy_presidency_allowed(PubComId::PRR, 70));
    assert!(game.pub_com(PubComId::PRR).is_none());
}

#[test]
fn presidency_needs_twice_the_par_value() {
    let mut game = stock_game(6);
    // 400 each; the last seat has paid 200 for a private company
    assert_eq!(game.current_player(), 0);
    for _ in 0..5 {
        assert!(game.perform(Action::Pass));
    }
    assert_eq!(game.current_player(), 5);
    assert_eq!(game.player(5).capital(), 200);
    assert!(game.buy_presidency_allowed(PubComId::LV, 70));
    assert!(game.buy_presidency_allowed(PubComId::LV, 95));
    game.buy_presidency(PubComId::LV, 70);
    assert_eq!(game.player(5).capital(), 60);
    for _ in 0..5 {
        assert!(game.perform(Action::Pass));
    }
    assert_eq!(game.current_player(), 5);
    assert!(!game.buy_presidency_allowed(PubComId::PRR, 70));
    assert!(!game.buy_presidency_allowed(PubComId::PRR, 80));
    assert!(!game.buy_presidency_allowed(PubComId::PRR, 95));
    assert!(!game.buy_ipo_share_allowed(PubComId::LV));
}

#[test]
fn ipo_shares_are_bought_at_par_and_float_the_company() {
    let mut game = stock_game(2);
    let first = game.current_player();
    let second = 1 - first;
    game.buy_presidency(PubComId::PRR, 80);
    let before = game.player(second).capital();
    assert!(game.buy_ipo_share_allowed(PubComId::PRR));
    assert!(!game.buy_ipo_share_allowed(PubComId::LV));
    assert!(!game.buy_pool_share_allowed(PubComId::PRR));
    game.buy_ipo_share(PubComId::PRR);
    assert_eq!(game.player(second).capital(), before - 80);
    assert_eq!(game.player(second).shares().count(PubComId::PRR), 1);
    assert_eq!(game.ipo().count(PubComId::PRR), 5);
    assert!(game.pub_com(PubComId::PRR).is_none());
    assert_eq!(game.current_player(), first);
    game.buy_ipo_share(PubComId::PRR);
    assert_eq!(game.ipo().count(PubComId::PRR), 4);
    let floated = game.pub_com(PubComId::PRR).unwrap();
    assert_eq!(floated.id(), PubComId::PRR);
    assert_eq!(floated.capital(), 800);
    let home = game.map().hex(1, 0).unwrap();
    assert!(!home.can_place_station(PubComId::PRR, 0));
    assert!(game.pub_com(PubComId::LV).is_none());
    game.buy_ipo_share(PubComId::PRR);
    assert_eq!(game.ipo().count(PubComId::PRR), 3);
    assert_eq!(game.pub_com(PubComId::PRR).unwrap().capital(), 800);
    assert_eq!(shares_total(&game, PubComId::PRR), 8);
    assert_eq!(presidents(&game, PubComId::PRR), 1);
}

#[test]
fn nobody_holds_more_than_six_shares_from_the_offering() {
    let mut game = stock_game(2);
    let first = game.current_player();
    game.buy_presidency(PubComId::PRR, 70);
    for _ in 0..4 {
        assert!(game.perform(Action::Pass));
        assert_eq!(game.current_player(), first);
        assert!(game.perform(Action::BuyIpoShare(PubComId::PRR)));
    }
    assert!(game.perform(Action::Pass));
    assert_eq!(game.player(first).shares().count(PubComId::PRR), 6);
    assert_eq!(game.ipo().count(PubComId::PRR), 2);
    assert!(!game.buy_ipo_share_allowed(PubComId::PRR));
    assert!(!game.perform(Action::BuyIpoShare(PubComId::PRR)));
}

#[test]
fn presidency_goes_to_the_player_with_more_shares() {
    let mut game = stock_game(3);
    let first = game.current_player();
    game.buy_presidency(PubComId::CAndO, 70);
    let second = game.current_player();
    for round in 0..3 {
        assert_eq!(game.current_player(), second);
        assert!(game.perform(Action::BuyIpoShare(PubComId::CAndO)));
        assert!(game.perform(Action::Pass));
        assert!(game.perform(Action::Pass));
        let expected = if round < 2 { first } else { second };
        assert_eq!(game.president(PubComId::CAndO), Some(expected));
    }
    assert_eq!(game.player(second).shares().count(PubComId::CAndO), 3);
    assert!(game.player(second).shares().president(PubComId::CAndO));
    assert!(!game.player(first).shares().president(PubComId::CAndO));
    assert_eq!(presidents(&game, PubComId::CAndO), 1);
    assert_eq!(game.president(PubComId::BAndO), None);
}

#[test]
fn shares_of_companies_at_sixty_or_more_are_not_counted() {
    let mut game = stock_game(2);
    let first = game.current_player();
    game.buy_presidency(PubComId::PRR, 70);
    assert_eq!(game.certificate_count(game.player(first)), 0);
    assert_eq!(game.certificates(game.player(first).shares()), 0);
}

#[test]
fn shares_of_companies_below_sixty_count_towards_the_limit() {
    let mut game = stock_game_with(6, chart_with(50));
    assert_eq!(game.certificate_limit(), 11);
    // seat 3 has paid 80 for a private company and has 320
    for _ in 0..3 {
        assert!(game.perform(Action::Pass));
    }
    let companies = [PubComId::BAndO, PubComId::CAndA, PubComId::CAndO, PubComId::LV, PubComId::NAndW];
    for pub_com in companies {
        assert_eq!(game.current_player(), 3);
        assert!(game.perform(Action::BuyPresidency(pub_com, 70)) || game.player(3).capital() < 140);
        for _ in 0..5 {
            if game.current_player() != 3 {
                assert!(game.perform(Action::Pass));
            }
        }
    }
    // 320 pays for two presidencies at 140
    assert_eq!(game.player(3).capital(), 40);
    assert_eq!(game.certificate_count(game.player(3)), 4);
    assert_eq!(game.stock_chart().value(PubComId::BAndO), Some(50));
}

#[test]
fn a_purchase_must_leave_the_buyer_within_the_limit() {
    let mut game = stock_game_with(2, chart_with(50));
    let first = game.current_player();
    let companies = PubComId::values();
    let mut bought = 0;
    for pub_com in companies {
        if game.current_player() != first {
            assert!(game.perform(Action::Pass));
        }
        if game.perform(Action::BuyPresidency(pub_com, 70)) {
            bought += 1;
        }
    }
    // 1200 less what the auction cost pays for at most 7 presidencies
    assert!(bought >= 5);
    assert_eq!(game.certificate_count(game.player(first)), 2 * bought);
    assert!(game.certificate_count(game.player(first)) <= game.certificate_limit());
}

#[test]
fn nothing_is_sold_in_the_first_stock_round() {
    let mut game = stock_game(2);
    let first = game.current_player();
    game.buy_presidency(PubComId::PRR, 70);
    assert!(game.perform(Action::Pass));
    assert_eq!(game.current_player(), first);
    assert!(!game.sell_shares_allowed(PubComId::PRR, 1));
    assert!(!game.end_turn_allowed());
}

#[test]
fn president_cannot_sell_below_two_shares() {
    let mut game = stock_game(2);
    let first = game.current_player();
    game.buy_presidency(PubComId::PRR, 70);
    for _ in 0..2 {
        assert!(game.perform(Action::Pass));
        assert!(game.perform(Action::BuyIpoShare(PubComId::PRR)));
    }
    assert_eq!(game.player(first).shares().count(PubComId::PRR), 4);
    second_stock_round(&mut game);
    while game.current_player() != first {
        assert!(game.perform(Action::Pass));
    }
    assert!(!game.sell_shares_allowed(PubComId::PRR, 3));
    assert!(!game.sell_shares_allowed(PubComId::PRR, 4));
    assert!(!game.sell_shares_allowed(PubComId::PRR, 5));
    assert!(game.sell_shares_allowed(PubComId::PRR, 2));
    assert!(game.sell_shares_allowed(PubComId::PRR, 1));
    assert!(game.sell_shares_allowed(PubComId::PRR, 0));
    assert!(!game.sell_shares_allowed(PubComId::LV, 0));
}

#[test]
fn selling_pays_the_share_value_and_moves_it_down() {
    let mut game = stock_game(2);
    let first = game.current_player();
    let second = 1 - first;
    game.buy_presidency(PubComId::PRR, 70);
    for _ in 0..2 {
        assert!(game.perform(Action::Pass));
        assert!(game.perform(Action::BuyIpoShare(PubComId::PRR)));
    }
    second_stock_round(&mut game);
    while game.current_player() != first {
        assert!(game.perform(Action::Pass));
    }
    let before = game.player(first).capital();
    assert!(game.pass_allowed());
    game.sell_shares(PubComId::PRR, 2);
    assert_eq!(game.player(first).capital(), before + 140);
    assert_eq!(game.player(first).shares().count(PubComId::PRR), 2);
    assert_eq!(game.pool().count(PubComId::PRR), 2);
    assert_eq!(game.stock_chart().value(PubComId::PRR), Some(59));
    assert_eq!(game.current_player(), first);
    assert!(!game.pass_allowed());
    match game.round() {
        RoundId::StockRound(round) => {
            assert!(round.action_performed());
            assert!(round.has_sold(PubComId::PRR, game.player(first)));
            assert!(!round.has_sold(PubComId::PRR, game.player(second)));
        },
        _ => panic!("not in a stock round"),
    }
    assert_eq!(game.certificate_count(game.player(first)), 2);
    assert!(game.end_turn_allowed());
    game.end_turn();
    assert_eq!(game.current_player(), second);
    assert!(!game.end_turn_allowed());
    let capital = game.player(second).capital();
    assert!(game.buy_pool_share_allowed(PubComId::PRR));
    game.buy_pool_share(PubComId::PRR);
    assert_eq!(game.player(second).capital(), capital - 59);
    assert_eq!(game.player(second).shares().count(PubComId::PRR), 1);
    assert_eq!(game.pool().count(PubComId::PRR), 1);
    assert_eq!(game.current_player(), first);
    assert_eq!(shares_total(&game, PubComId::PRR), 8);
    assert_eq!(presidents(&game, PubComId::PRR), 1);
}

#[test]
fn buying_back_in_the_same_turn_can_be_blocked() {
    let mut game = stock_game(2);
    let first = game.current_player();
    let second = 1 - first;
    assert!(!game.buy_back_blocked());
    game.buy_presidency(PubComId::PRR, 70);
    for _ in 0..2 {
        assert!(game.perform(Action::Pass));
        assert!(game.perform(Action::BuyIpoShare(PubComId::PRR)));
    }
    second_stock_round(&mut game);
    while game.current_player() != first {
        assert!(game.perform(Action::Pass));
    }
    assert!(game.perform(Action::SellShares(PubComId::PRR, 1)));
    assert!(game.buy_pool_share_allowed(PubComId::PRR));
    assert!(game.buy_ipo_share_allowed(PubComId::PRR));
    game.set_buy_back_blocked(true);
    assert!(game.buy_back_blocked());
    assert!(!game.buy_pool_share_allowed(PubComId::PRR));
    assert!(!game.buy_ipo_share_allowed(PubComId::PRR));
    assert!(game.buy_presidency_allowed(PubComId::LV, 70));
    assert!(game.perform(Action::EndTurn));
    assert_eq!(game.current_player(), second);
    assert!(game.buy_pool_share_allowed(PubComId::PRR));
    assert!(game.perform(Action::Pass));
    assert_eq!(game.current_player(), first);
    match game.round() {
        RoundId::StockRound(round) => assert!(!round.has_sold(PubComId::PRR, game.player(first))),
        _ => panic!("not in a stock round"),
    }
    assert!(game.buy_pool_share_allowed(PubComId::PRR));
    game.set_buy_back_blocked(false);
    assert!(game.buy_pool_share_allowed(PubComId::PRR));
}

#[test]
fn the_pool_takes_five_shares_of_a_company_at_most() {
    let mut game = stock_game(2);
    let first = game.current_player();
    let second = 1 - first;
    game.buy_presidency(PubComId::PRR, 70);
    for _ in 0..3 {
        assert!(game.perform(Action::BuyIpoShare(PubComId::PRR)));
        assert!(game.perform(Action::BuyIpoShare(PubComId::PRR)));
    }
    assert_eq!(game.player(first).shares().count(PubComId::PRR), 5);
    assert_eq!(game.player(second).shares().count(PubComId::PRR), 3);
    second_stock_round(&mut game);
    while game.current_player() != second {
        assert!(game.perform(Action::Pass));
    }
    assert!(game.perform(Action::SellShares(PubComId::PRR, 3)));
    assert!(game.perform(Action::EndTurn));
    assert_eq!(game.current_player(), first);
    assert!(!game.sell_shares_allowed(PubComId::PRR, 3));
    assert!(game.sell_shares_allowed(PubComId::PRR, 2));
    assert!(!game.perform(Action::SellShares(PubComId::PRR, 3)));
    assert_eq!(game.pool().count(PubComId::PRR), 3);
}

#[test]
fn a_president_may_sell_out_when_another_player_has_two_shares() {
    let mut game = stock_game(2);
    let first = game.current_player();
    let second = 1 - first;
    game.buy_presidency(PubComId::PRR, 70);
    assert!(game.perform(Action::BuyIpoShare(PubComId::PRR)));
    assert!(game.perform(Action::Pass));
    assert!(game.perform(Action::BuyIpoShare(PubComId::PRR)));
    second_stock_round(&mut game);
    while game.current_player() != first {
        assert!(game.perform(Action::Pass));
    }
    assert_eq!(game.player(second).shares().count(PubComId::PRR), 2);
    assert!(game.sell_shares_allowed(PubComId::PRR, 2));
    game.sell_shares(PubComId::PRR, 2);
    assert_eq!(game.president(PubComId::PRR), Some(second));
    assert!(!game.player(first).shares().president(PubComId::PRR));
    assert_eq!(presidents(&game, PubComId::PRR), 1);
    assert_eq!(shares_total(&game, PubComId::PRR), 8);
}

#[test]
fn passes_by_everyone_begin_the_operating_round() {
    let mut game = stock_game(3);
    let first = game.current_player();
    game.buy_presidency(PubComId::LV, 70);
    let second = game.current_player();
    game.buy_presidency(PubComId::PRR, 95);
    let capital: Vec<u32> = (0..3).map(|seat| game.player(seat).capital()).collect();
    let income: Vec<u32> = (0..3).map(|seat| game.player(seat).income()).collect();
    assert!(game.perform(Action::Pass));
    assert!(game.perform(Action::Pass));
    assert!(game.in_stock_round());
    assert!(game.perform(Action::Pass));
    match game.round() {
        RoundId::OperatingRound(round) => {
            assert_eq!(round.pub_coms_to_operate(), vec![PubComId::LV, PubComId::PRR]);
            assert_eq!(round.operating_rounds_left(), 0);
        },
        _ => panic!("not in an operating round"),
    }
    assert_eq!(game.current_pub_com(), Some(PubComId::PRR));
    assert_eq!(game.current_player(), second);
    assert_ne!(first, second);
    for seat in 0..3 {
        assert_eq!(game.player(seat).capital(), capital[seat] + income[seat]);
    }
    assert!(!game.pass_allowed());
    assert!(!game.perform(Action::Pass));
    assert!(!game.buy_ipo_share_allowed(PubComId::LV));
}

#[test]
fn operating_round_without_companies_leaves_the_turn() {
    let mut game = stock_game(2);
    assert!(game.perform(Action::Pass));
    let last = game.current_player();
    assert!(game.perform(Action::Pass));
    assert!(matches!(game.round(), RoundId::OperatingRound(_)));
    assert_eq!(game.current_pub_com(), None);
    assert_eq!(game.current_player(), last);
}

#[test]
fn home_station_is_placed_once() {
    let mut map = map_with_home_of_prr();
    assert_eq!(map.home(PubComId::PRR), Some((1, 0, None)));
    assert_eq!(map.home(PubComId::LV), None);
    assert!(map.hex(1, 0).unwrap().can_place_station(PubComId::PRR, 0));
    map.place_home_station(PubComId::PRR);
    assert!(!map.hex(1, 0).unwrap().can_place_station(PubComId::PRR, 0));
    map.place_home_station(PubComId::PRR);
    map.place_home_station(PubComId::LV);
    assert!(!map.hex(1, 0).unwrap().can_place_station(PubComId::LV, 0));
}
