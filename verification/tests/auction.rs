use chesapeake::economy::{ParTrack, Player, StockChart};
use chesapeake::game::{Action, Game};
use chesapeake::geography::{GameMap, TileSet};
use chesapeake::ids::{PrivComId, RoundId};
use chesapeake::rounds::priv_auction::seat_following;
use chesapeake::rounds::PrivAuction;
use chesapeake::train_set::TrainSet;

fn chart() -> StockChart {
    StockChart::new(vec![
        vec![100, 90, 80, 70, 60, 50],
        vec![105, 95, 85, 75, 65, 55],
        vec![110, 100, 90, 80, 95, 58],
        vec![120, 110, 100, 80, 70, 55],
        vec![130, 120, 70, 65, 59, 50],
    ])
    .unwrap()
}

fn game(player_count: usize) -> Game {
    Game::new(
        player_count,
        GameMap::new(3, 3),
        TileSet::new(),
        TrainSet::new(),
        chart(),
        ParTrack::new(vec![70, 80, 95]).unwrap(),
    )
}

fn lot(game: &Game) -> Option<PrivComId> {
    match game.round() {
        RoundId::PrivAuction(auction) => auction.current(),
        _ => None,
    }
}

fn bid(game: &Game, seat: usize, private: PrivComId) -> Option<u32> {
    match game.round() {
        RoundId::PrivAuction(auction) => auction.bids(game.player(seat))[private.ordinal()],
        _ => None,
    }
}

#[test]
fn new_game_shares_the_bank_out() {
    for player_count in 2..=6usize {
        let game = game(player_count);
        assert_eq!(game.player_count(), player_count);
        for seat in 0..player_count {
            assert_eq!(game.player(seat).id(), seat);
            assert_eq!(game.player(seat).capital(), 2400 / player_count as u32);
        }
        assert_eq!(game.current_player(), 0);
        assert_eq!(game.priority_player(), 0);
        assert_eq!(lot(&game), Some(PrivComId::DAndR(20)));
    }
}

#[test]
fn seats_go_round_the_table() {
    assert_eq!(seat_following(0, 1, 3), 1);
    assert_eq!(seat_following(2, 1, 3), 0);
    assert_eq!(seat_following(1, 2, 3), 0);
    assert_eq!(seat_following(1, 3, 3), 1);
    assert_eq!(seat_following(5, 1, 6), 0);
}

#[test]
fn auction_starts_with_the_canal_and_no_bids() {
    let auction = PrivAuction::new(3);
    let player = Player::new(1, 800);
    assert_eq!(auction.current(), Some(PrivComId::DAndR(20)));
    assert_eq!(auction.passes(), 0);
    assert_eq!(auction.bids(&player), &[None; 6]);
    assert_eq!(auction.max_bid(PrivComId::CV), 200);
    assert_eq!(auction.only_bid(PrivComId::DAndR(20)), None);
    assert_eq!(auction.player_with_max_bid(PrivComId::DAndR(20)), None);
    assert_eq!(auction.next_player_in_auction(), None);
    assert!(!auction.in_auction());
    assert!(!auction.is_done());
    assert!(auction.buy_allowed(&player));
    assert!(auction.pass_allowed(&player));
    assert_eq!(auction.total_bids(&player), 0);
}

#[test]
fn bid_must_be_affordable_close_to_the_highest_and_differ_from_it() {
    let mut auction = PrivAuction::new(2);
    let rich = Player::new(0, 1200);
    let poor = Player::new(1, 24);
    let canal = PrivComId::DAndR(20);
    assert!(!auction.bid_allowed(&rich, canal, 20));
    assert!(!auction.bid_allowed(&rich, canal, 14));
    assert!(auction.bid_allowed(&rich, canal, 15));
    assert!(auction.bid_allowed(&rich, canal, 21));
    assert!(auction.bid_allowed(&rich, canal, 1200));
    assert!(!auction.bid_allowed(&rich, canal, 1201));
    assert!(!auction.bid_allowed(&poor, canal, 25));
    assert!(auction.bid_allowed(&poor, canal, 24));
    assert!(!auction.bid_allowed(&rich, PrivComId::CToP, 45));
    assert!(auction.place_bid(&rich, canal, 25));
    assert!(!auction.place_bid(&poor, canal, 25));
    assert_eq!(auction.max_bid(canal), 25);
    assert_eq!(auction.only_bid(canal), Some((0, 25)));
    assert_eq!(auction.player_with_max_bid(canal), Some(0));
    assert!(auction.in_auction());
    assert!(!auction.buy_allowed(&rich));
    assert!(!auction.pass_allowed(&poor));
    assert!(auction.pass_allowed(&rich));
    assert!(auction.can_afford_bid(&rich, canal, 1200));
    assert!(!auction.can_afford_bid(&rich, PrivComId::CToP, 1176));
    assert!(auction.can_afford_bid(&rich, PrivComId::CToP, 1175));
}

#[test]
fn bid_on_another_company_needs_a_raised_bid_on_it() {
    let mut auction = PrivAuction::new(3);
    let players = [Player::new(0, 800), Player::new(1, 800), Player::new(2, 800)];
    let canal = PrivComId::DAndR(20);
    assert!(!auction.bid_allowed(&players[0], PrivComId::CV, 205));
    assert!(auction.place_bid(&players[0], canal, 30));
    assert!(auction.bid_allowed(&players[1], PrivComId::DAndR(3), 26));
    assert!(!auction.bid_allowed(&players[0], PrivComId::DAndR(3), 40));
    assert!(!auction.bid_allowed(&players[1], PrivComId::DAndR(3), 24));
}

#[test]
fn other_bids_below_the_highest_are_set_to_zero() {
    let mut auction = PrivAuction::new(3);
    let players = [Player::new(0, 800), Player::new(1, 800), Player::new(2, 800)];
    let canal = PrivComId::DAndR(20);
    assert!(auction.place_bid(&players[0], canal, 25));
    assert!(auction.place_bid(&players[1], canal, 30));
    assert_eq!(auction.bids(&players[0])[0], Some(0));
    assert_eq!(auction.bids(&players[1])[0], Some(30));
    assert_eq!(auction.bids(&players[2])[0], None);
    assert!(auction.place_bid(&players[2], canal, 27));
    assert_eq!(auction.bids(&players[0])[0], Some(0));
    assert_eq!(auction.bids(&players[1])[0], Some(30));
    assert_eq!(auction.bids(&players[2])[0], Some(27));
    assert_eq!(auction.max_bid(canal), 30);
    assert_eq!(auction.only_bid(canal), None);
    assert_eq!(auction.player_with_max_bid(canal), Some(1));
    assert_eq!(auction.next_player_in_auction(), Some(2));
    assert_eq!(auction.total_bids(&players[2]), 27);
}

#[test]
fn passing_in_an_auction_withdraws_the_bid_until_one_is_left() {
    let mut auction = PrivAuction::new(3);
    let players = [Player::new(0, 800), Player::new(1, 800), Player::new(2, 800)];
    let canal = PrivComId::DAndR(20);
    assert!(auction.place_bid(&players[0], canal, 25));
    assert!(auction.place_bid(&players[1], canal, 30));
    assert!(auction.place_bid(&players[2], canal, 35));
    assert_eq!(auction.pass_current(&players[0], 3), false);
    assert_eq!(auction.passes(), 0);
    assert_eq!(auction.pass_auction(&players[0]), None);
    assert_eq!(auction.bids(&players[0])[0], None);
    assert_eq!(auction.current(), Some(canal));
    assert_eq!(auction.pass_auction(&players[1]), Some((canal, 2, 35)));
    assert_eq!(auction.current(), Some(PrivComId::CToP));
    assert_eq!(auction.pass_auction(&players[2]), None);
}

#[test]
fn buying_moves_the_auction_to_the_next_company() {
    let mut auction = PrivAuction::new(2);
    let player = Player::new(0, 1200);
    let broke = Player::new(1, 10);
    assert_eq!(auction.current_if_buy_allowed(&broke), None);
    assert_eq!(auction.buy_current(&broke), None);
    assert_eq!(auction.current(), Some(PrivComId::DAndR(20)));
    let expected = [
        PrivComId::DAndR(20),
        PrivComId::CToP,
        PrivComId::BAndS,
        PrivComId::CAndO,
        PrivComId::BAndO,
        PrivComId::CV,
    ];
    for private in expected {
        assert_eq!(auction.current_if_buy_allowed(&player), Some(private));
        assert_eq!(auction.buy_current(&player), Some(private));
    }
    assert!(auction.is_done());
    assert_eq!(auction.current(), None);
    assert_eq!(auction.buy_current(&player), None);
    assert!(!auction.pass_allowed(&player));
    assert!(!auction.bid_allowed(&player, PrivComId::CV, 300));
}

#[test]
fn canal_gets_cheaper_by_five_down_to_nothing() {
    let mut auction = PrivAuction::new(2);
    let players = [Player::new(0, 1200), Player::new(1, 1200)];
    for cost in [15u32, 10, 5, 0] {
        assert_eq!(auction.pass_current(&players[0], 2), false);
        assert_eq!(auction.passes(), 1);
        assert_eq!(auction.pass_current(&players[1], 2), true);
        assert_eq!(auction.passes(), 0);
        assert_eq!(auction.current(), Some(PrivComId::DAndR(cost)));
    }
    assert_eq!(auction.current_if_pass_allowed(&players[0]), None);
    assert_eq!(auction.pass_current(&players[0], 2), false);
    assert_eq!(auction.buy_current(&players[0]), Some(PrivComId::DAndR(0)));
    assert_eq!(auction.current(), Some(PrivComId::CToP));
}

#[test]
fn other_companies_keep_their_cost_when_everyone_passes() {
    let mut auction = PrivAuction::new(2);
    let players = [Player::new(0, 1200), Player::new(1, 1200)];
    assert_eq!(auction.buy_current(&players[0]), Some(PrivComId::DAndR(20)));
    assert_eq!(auction.pass_current(&players[1], 2), false);
    assert_eq!(auction.pass_current(&players[0], 2), true);
    assert_eq!(auction.current(), Some(PrivComId::CToP));
    assert_eq!(auction.passes(), 0);
}

#[test]
fn two_players_bid_on_the_canal() {
    let mut game = game(2);
    let canal = PrivComId::DAndR(20);
    assert_eq!(game.player(0).capital(), 1200);
    assert_eq!(game.player(1).capital(), 1200);
    assert!(game.bid_priv_allowed(canal, 25));
    game.bid_priv(canal, 25);
    assert_eq!(game.current_player(), 1);
    assert!(!game.bid_priv_allowed(canal, 25));
    assert!(!game.bid_priv_allowed(canal, 19));
    assert!(!game.buy_cheapest_priv_allowed());
    assert!(game.bid_priv_allowed(canal, 30));
    game.bid_priv(canal, 30);
    assert_eq!(bid(&game, 0, canal), Some(0));
    assert_eq!(bid(&game, 1, canal), Some(30));
    assert_eq!(game.current_player(), 0);
    assert!(!game.buy_cheapest_priv_allowed());
    assert!(game.pass_allowed());
    game.pass();
    assert!(game.player(1).owns(canal));
    assert!(!game.player(0).owns(canal));
    assert_eq!(game.player(1).capital(), 1170);
    assert_eq!(game.player(0).capital(), 1200);
    assert_eq!(lot(&game), Some(PrivComId::CToP));
    assert_eq!(game.current_player(), 1);
    assert_eq!(game.priority_player(), 0);
    assert!(game.buy_cheapest_priv_allowed());
}

#[test]
fn canal_gets_cheaper_when_all_players_pass() {
    for player_count in 2..=6usize {
        let mut game = game(player_count);
        for seat in 0..player_count {
            assert_eq!(lot(&game), Some(PrivComId::DAndR(20)));
            assert_eq!(game.current_player(), seat);
            assert!(game.pass_allowed());
            game.pass();
        }
        assert_eq!(lot(&game), Some(PrivComId::DAndR(15)));
        assert_eq!(game.current_player(), 0);
        for _ in 0..player_count {
            game.pass();
        }
        assert_eq!(lot(&game), Some(PrivComId::DAndR(10)));
        for seat in 0..player_count {
            assert_eq!(game.player(seat).capital(), 2400 / player_count as u32);
        }
    }
}

#[test]
fn a_bid_starts_the_count_of_passes_again() {
    let mut game = game(3);
    game.pass();
    game.pass();
    assert!(game.bid_priv_allowed(PrivComId::DAndR(20), 16));
    game.bid_priv(PrivComId::DAndR(20), 16);
    assert_eq!(game.current_player(), 0);
    game.pass();
    game.pass();
    assert_eq!(lot(&game), Some(PrivComId::DAndR(20)));
    game.pass();
    assert_eq!(lot(&game), Some(PrivComId::DAndR(15)));
    assert_eq!(bid(&game, 2, PrivComId::DAndR(15)), Some(16));
    assert_eq!(game.current_player(), 0);
    assert!(!game.buy_cheapest_priv_allowed());
    assert!(!game.pass_allowed());
}

#[test]
fn buying_the_cheapest_gives_priority_to_the_next_seat() {
    let mut game = game(3);
    game.pass();
    assert_eq!(game.current_player(), 1);
    assert!(game.buy_cheapest_priv_allowed());
    game.buy_cheapest_priv();
    assert!(game.player(1).owns(PrivComId::DAndR(20)));
    assert_eq!(game.player(1).capital(), 780);
    assert_eq!(game.priority_player(), 2);
    assert_eq!(game.current_player(), 2);
    assert_eq!(lot(&game), Some(PrivComId::CToP));
}

#[test]
fn revenue_is_collected_when_everyone_passes_on_another_company() {
    let mut game = game(2);
    game.buy_cheapest_priv();
    assert_eq!(game.player(0).capital(), 1180);
    assert_eq!(game.current_player(), 1);
    game.pass();
    game.pass();
    assert_eq!(lot(&game), Some(PrivComId::CToP));
    assert_eq!(game.player(0).capital(), 1185);
    assert_eq!(game.player(1).capital(), 1200);
    assert_eq!(game.current_player(), 1);
}

#[test]
fn the_last_sale_begins_the_first_stock_round() {
    let mut game = game(2);
    for _ in 0..5 {
        assert!(game.perform(Action::BuyCheapestPriv));
    }
    assert_eq!(lot(&game), Some(PrivComId::CV));
    assert_eq!(game.current_player(), 1);
    assert!(game.perform(Action::BuyCheapestPriv));
    assert!(matches!(game.round(), RoundId::StockRound(_)));
    assert_eq!(game.priority_player(), 0);
    assert_eq!(game.current_player(), 0);
    assert_eq!(game.player(0).capital(), 1200 - 20 - 50 - 100);
    assert_eq!(game.player(1).capital(), 1200 - 40 - 80 - 200);
    assert!(!game.buy_cheapest_priv_allowed());
    assert!(!game.bid_priv_allowed(PrivComId::CV, 300));
    assert!(!game.perform(Action::BuyCheapestPriv));
    assert!(!game.perform(Action::BidPriv(PrivComId::CV, 300)));
}

#[test]
fn moves_that_are_not_allowed_change_nothing() {
    let mut game = game(2);
    assert!(!game.perform(Action::BidPriv(PrivComId::DAndR(20), 20)));
    assert!(!game.perform(Action::EndTurn));
    assert!(!game.perform(Action::BuyIpoShare(chesapeake::ids::PubComId::PRR)));
    assert!(!game.perform(Action::SellShares(chesapeake::ids::PubComId::PRR, 1)));
    assert_eq!(game.current_player(), 0);
    assert_eq!(lot(&game), Some(PrivComId::DAndR(20)));
    assert_eq!(game.player(0).capital(), 1200);
}
