use chesapeake::ids::{ColorId, PhaseId, PrivComId, PubComId, TerrainId, TrainId};
use std::str::FromStr;

#[test]
fn pub_com_names_and_labels() {
    assert_eq!(PubComId::BAndO.name(), "Baltimore and Ohio Railroad");
    assert_eq!(PubComId::PAndLE.name(), "Pittsburgh & Lake Erie Railroad");
    assert_eq!(PubComId::SRR.name(), "Strasburg Rail Road");
    assert_eq!(PubComId::BAndO.label(), "B&O");
    assert_eq!(PubComId::PAndLE.label(), "P&LE");
}

#[test]
fn pub_com_values_are_eight_in_order() {
    let values = PubComId::values();
    assert_eq!(
        values,
        vec![
            PubComId::BAndO,
            PubComId::CAndA,
            PubComId::CAndO,
            PubComId::LV,
            PubComId::NAndW,
            PubComId::PRR,
            PubComId::PAndLE,
            PubComId::SRR,
        ]
    );
    for (i, pub_com) in values.iter().enumerate() {
        assert_eq!(pub_com.ordinal(), i);
        assert_eq!(PubComId::from_ordinal(i), *pub_com);
    }
}

#[test]
fn pub_com_from_str() {
    assert_eq!(PubComId::from_str("B&O"), Ok(PubComId::BAndO));
    assert_eq!(PubComId::from_str("C&A"), Ok(PubComId::CAndA));
    assert_eq!(PubComId::from_str("C&O"), Ok(PubComId::CAndO));
    assert_eq!(PubComId::from_str("LV"), Ok(PubComId::LV));
    assert_eq!(PubComId::from_str("N&W"), Ok(PubComId::NAndW));
    assert_eq!(PubComId::from_str("PRR"), Ok(PubComId::PRR));
    assert_eq!(PubComId::from_str("P&LE"), Ok(PubComId::PAndLE));
    assert_eq!(PubComId::from_str("SRR"), Ok(PubComId::SRR));
    assert_eq!(
        PubComId::from_str("XYZ"),
        Err("XYZ can not be parsed as PubComId".to_string())
    );
    assert_eq!(PubComId::parse("b&o"), None);
}

#[test]
fn priv_com_costs_and_revenues() {
    assert_eq!(PrivComId::DAndR(20).cost(), 20);
    assert_eq!(PrivComId::DAndR(15).cost(), 15);
    assert_eq!(PrivComId::CToP.cost(), 40);
    assert_eq!(PrivComId::BAndS.cost(), 50);
    assert_eq!(PrivComId::CAndO.cost(), 80);
    assert_eq!(PrivComId::BAndO.cost(), 100);
    assert_eq!(PrivComId::CV.cost(), 200);
    assert_eq!(PrivComId::DAndR(20).revenue(), 5);
    assert_eq!(PrivComId::CToP.revenue(), 10);
    assert_eq!(PrivComId::BAndS.revenue(), 10);
    assert_eq!(PrivComId::CAndO.revenue(), 15);
    assert_eq!(PrivComId::BAndO.revenue(), 0);
    assert_eq!(PrivComId::CV.revenue(), 30);
}

#[test]
fn priv_com_values_ascend_by_cost() {
    let values = PrivComId::values();
    assert_eq!(values.len(), 6);
    assert_eq!(values[0], PrivComId::DAndR(20));
    for i in 1..values.len() {
        assert!(values[i - 1].cost() < values[i].cost());
        assert_eq!(values[i - 1].successor(), Some(values[i]));
        assert_eq!(values[i].ordinal(), i);
    }
    assert_eq!(PrivComId::CV.successor(), None);
    assert_eq!(PrivComId::DAndR(5).successor(), Some(PrivComId::CToP));
}

#[test]
fn priv_com_names_and_from_str() {
    assert_eq!(PrivComId::DAndR(20).name(), "Delaware and Raritan Canal");
    assert_eq!(PrivComId::CV.name(), "Cornelius Vanderbilt");
    assert_eq!(PrivComId::CToP.label(), "C-P");
    assert_eq!(PrivComId::from_str("D&R"), Ok(PrivComId::DAndR(20)));
    assert_eq!(PrivComId::from_str("C-P"), Ok(PrivComId::CToP));
    assert_eq!(PrivComId::from_str("B&S"), Ok(PrivComId::BAndS));
    assert_eq!(PrivComId::from_str("C&O"), Ok(PrivComId::CAndO));
    assert_eq!(PrivComId::from_str("B&O"), Ok(PrivComId::BAndO));
    assert_eq!(PrivComId::from_str("CV"), Ok(PrivComId::CV));
    assert_eq!(
        PrivComId::from_str(""),
        Err(" can not be parsed as PrivComId".to_string())
    );
}

#[test]
fn terrain_costs_and_default() {
    assert_eq!(TerrainId::Plain.cost(), 0);
    assert_eq!(TerrainId::River.cost(), 40);
    assert_eq!(TerrainId::Mountain.cost(), 80);
    assert_eq!(TerrainId::default(), TerrainId::Plain);
    assert_eq!(TerrainId::from_str("River"), Ok(TerrainId::River));
    assert_eq!(TerrainId::from_str("Mountain"), Ok(TerrainId::Mountain));
    assert_eq!(
        TerrainId::from_str("Sea"),
        Err("Sea can not be parsed as TerrainId".to_string())
    );
}

#[test]
fn colors_and_trains_from_str() {
    assert_eq!(ColorId::from_str("Yellow"), Ok(ColorId::Yellow));
    assert_eq!(ColorId::from_str("Green"), Ok(ColorId::Green));
    assert_eq!(ColorId::from_str("Brown"), Ok(ColorId::Brown));
    assert_eq!(ColorId::from_str("Gray"), Ok(ColorId::Gray));
    assert_eq!(ColorId::from_str("Red"), Ok(ColorId::Red));
    assert_eq!(
        ColorId::from_str("Blue"),
        Err("Blue can not be parsed as ColorId".to_string())
    );
    assert_eq!(TrainId::from_str("2"), Ok(TrainId::Range2));
    assert_eq!(TrainId::from_str("3"), Ok(TrainId::Range3));
    assert_eq!(TrainId::from_str("4"), Ok(TrainId::Range4));
    assert_eq!(TrainId::from_str("5"), Ok(TrainId::Range5));
    assert_eq!(TrainId::from_str("6"), Ok(TrainId::Range6));
    assert_eq!(TrainId::from_str("D"), Ok(TrainId::Diesel));
    assert_eq!(
        TrainId::from_str("7"),
        Err("7 can not be parsed as TrainId".to_string())
    );
    assert!(TrainId::Range2 < TrainId::Diesel);
    assert!(ColorId::Yellow < ColorId::Green);
}

#[test]
fn operating_rounds_by_phase() {
    assert_eq!(PhaseId::Phase2.operating_round_count(), 1);
    assert_eq!(PhaseId::Phase3.operating_round_count(), 2);
    assert_eq!(PhaseId::Phase4.operating_round_count(), 2);
    assert_eq!(PhaseId::Phase5.operating_round_count(), 3);
    assert_eq!(PhaseId::Phase6.operating_round_count(), 3);
    assert_eq!(PhaseId::PhaseD.operating_round_count(), 3);
    assert!(PhaseId::Phase2 < PhaseId::PhaseD);
}
