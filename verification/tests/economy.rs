use chesapeake::economy::{ParTrack, Player, PubCom, Shares, StockChart};
use chesapeake::ids::{PrivComId, PubComId, TrainId};

fn chart_values() -> Vec<Vec<u32>> {
    vec![
        vec![100, 90, 80, 70, 60, 50],
        vec![105, 95, 85, 75, 65, 55],
        vec![110, 100, 90, 80, 95, 58],
        vec![120, 110, 100, 80, 70, 55],
        vec![130, 120, 70, 65, 59, 50],
    ]
}

#[test]
fn ipo_shares_hold_everything() {
    let ipo = Shares::ipo_shares();
    for pub_com in PubComId::values() {
        assert_eq!(ipo.count(pub_com), 8);
        assert!(ipo.president(pub_com));
    }
}

#[test]
fn empty_shares_hold_nothing() {
    let empty = Shares::empty_shares();
    for pub_com in PubComId::values() {
        assert_eq!(empty.count(pub_com), 0);
        assert!(!empty.president(pub_com));
    }
}

#[test]
fn shares_are_added_and_removed_per_company() {
    let mut shares = Shares::empty_shares();
    shares.add_shares(PubComId::LV, 3);
    shares.add_shares(PubComId::PRR, 2);
    shares.add_president(PubComId::PRR);
    assert_eq!(shares.count(PubComId::LV), 3);
    assert_eq!(shares.count(PubComId::PRR), 2);
    assert_eq!(shares.count(PubComId::SRR), 0);
    assert!(shares.president(PubComId::PRR));
    assert!(!shares.president(PubComId::LV));
    shares.remove_shares(PubComId::LV, 2);
    shares.remove_president(PubComId::PRR);
    assert_eq!(shares.count(PubComId::LV), 1);
    assert_eq!(shares.count(PubComId::PRR), 2);
    assert!(!shares.president(PubComId::PRR));
}

#[test]
fn shares_from_parts_need_counts_of_at_most_eight() {
    let mut counts = [0u32; 8];
    counts[3] = 8;
    counts[5] = 2;
    let mut presidencies = [false; 8];
    presidencies[5] = true;
    let shares = Shares::from_parts(counts, presidencies).unwrap();
    assert_eq!(shares.count(PubComId::LV), 8);
    assert_eq!(shares.count(PubComId::PRR), 2);
    assert!(shares.president(PubComId::PRR));
    assert!(!shares.president(PubComId::LV));
    counts[0] = 9;
    assert!(Shares::from_parts(counts, presidencies).is_none());
}

#[test]
fn player_starts_with_capital_only() {
    let player = Player::new(3, 600);
    assert_eq!(player.id(), 3);
    assert_eq!(player.capital(), 600);
    assert_eq!(player.income(), 0);
    assert_eq!(player.shares().count(PubComId::BAndO), 0);
    assert!(!player.owns(PrivComId::CV));
}

#[test]
fn player_collects_revenue_of_private_companies() {
    let mut player = Player::new(0, 1200);
    player.buy_priv(PrivComId::DAndR(20), 25);
    player.buy_priv(PrivComId::CV, 200);
    assert_eq!(player.capital(), 975);
    assert!(player.owns(PrivComId::DAndR(20)));
    assert!(player.owns(PrivComId::DAndR(15)));
    assert!(player.owns(PrivComId::CV));
    assert!(!player.owns(PrivComId::CToP));
    assert_eq!(player.income(), 35);
    player.operate_priv_coms();
    assert_eq!(player.capital(), 1010);
    player.operate_priv_coms();
    assert_eq!(player.capital(), 1045);
}

#[test]
fn player_capital_and_shares_change() {
    let mut player = Player::new(1, 100);
    player.add_capital(50);
    assert_eq!(player.capital(), 150);
    player.remove_capital(150);
    assert_eq!(player.capital(), 0);
    player.shares_mut().add_shares(PubComId::CAndA, 2);
    assert_eq!(player.shares().count(PubComId::CAndA), 2);
    player.restore(77, Shares::ipo_shares());
    assert_eq!(player.capital(), 77);
    assert_eq!(player.shares().count(PubComId::CAndA), 8);
    assert_eq!(player.id(), 1);
}

#[test]
fn par_track_takes_70_80_95_in_order() {
    assert!(ParTrack::new(vec![70, 80, 95]).is_some());
    assert!(ParTrack::new(vec![70, 80]).is_some());
    assert!(ParTrack::new(vec![]).is_some());
    assert!(ParTrack::new(vec![80, 70, 95]).is_none());
    assert!(ParTrack::new(vec![70, 80, 95, 100]).is_none());
    assert!(ParTrack::new(vec![60]).is_none());
}

#[test]
fn par_track_remembers_par_prices() {
    let mut track = ParTrack::new(vec![70, 80, 95]).unwrap();
    assert_eq!(track.values(), &[70, 80, 95]);
    assert!(track.offers(80));
    assert!(!track.offers(100));
    assert_eq!(track.value(PubComId::PRR), None);
    track.add_token(PubComId::PRR, 80);
    track.add_token(PubComId::LV, 95);
    track.add_token(PubComId::SRR, 70);
    assert_eq!(track.value(PubComId::PRR), Some(80));
    assert_eq!(track.value(PubComId::LV), Some(95));
    assert_eq!(track.value(PubComId::SRR), Some(70));
    assert_eq!(track.value(PubComId::BAndO), None);
}

#[test]
fn stock_chart_needs_its_start_fields() {
    assert!(StockChart::new(chart_values()).is_some());
    assert!(StockChart::new(vec![]).is_none());
    let mut short = chart_values();
    short[2].truncate(4);
    assert!(StockChart::new(short).is_none());
    let mut few = chart_values();
    few.truncate(4);
    assert!(StockChart::new(few).is_none());
}

#[test]
fn stock_chart_tokens_start_on_their_fields() {
    let mut chart = StockChart::new(chart_values()).unwrap();
    assert_eq!(chart.value(PubComId::PRR), None);
    assert_eq!(chart.start_value(70), Some(70));
    assert_eq!(chart.start_value(80), Some(80));
    assert_eq!(chart.start_value(95), Some(95));
    assert_eq!(chart.start_value(100), None);
    chart.add_token(PubComId::PRR, 70);
    chart.add_token(PubComId::LV, 80);
    chart.add_token(PubComId::SRR, 95);
    assert_eq!(chart.value(PubComId::PRR), Some(70));
    assert_eq!(chart.value(PubComId::LV), Some(80));
    assert_eq!(chart.value(PubComId::SRR), Some(95));
    assert_eq!(chart.token_count_at_position(4, 2), 1);
    chart.add_token(PubComId::BAndO, 70);
    assert_eq!(chart.token_count_at_position(4, 2), 2);
    assert_eq!(chart.token_count_at_position(3, 3), 1);
    assert_eq!(chart.token_count_at_position(0, 0), 0);
}

#[test]
fn stock_chart_tokens_move_down_to_the_floor() {
    let mut chart = StockChart::new(chart_values()).unwrap();
    chart.add_token(PubComId::PRR, 70);
    chart.move_down(PubComId::PRR, 1);
    assert_eq!(chart.value(PubComId::PRR), Some(65));
    chart.move_down(PubComId::PRR, 1);
    assert_eq!(chart.value(PubComId::PRR), Some(59));
    chart.move_down(PubComId::PRR, 5);
    assert_eq!(chart.value(PubComId::PRR), Some(50));
    chart.move_down(PubComId::PRR, 1);
    assert_eq!(chart.value(PubComId::PRR), Some(50));
    chart.move_down(PubComId::LV, 3);
    assert_eq!(chart.value(PubComId::LV), None);
    chart.move_down(PubComId::PRR, usize::MAX);
    assert_eq!(chart.value(PubComId::PRR), Some(50));
}

#[test]
fn pub_com_floats_with_capital_and_no_train() {
    let pub_com = PubCom::new(PubComId::NAndW, 700);
    assert_eq!(pub_com.id(), PubComId::NAndW);
    assert_eq!(pub_com.capital(), 700);
    assert!(!pub_com.operated());
    assert!(!pub_com.has_train(TrainId::Range2));
    assert!(!pub_com.has_train(TrainId::Diesel));
}
