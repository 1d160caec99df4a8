use chesapeake::geography::{City, Content, GameMap, Hex, Location, Rail, Stop, Tile, TileSet, TrackLayMap};
use chesapeake::ids::{ColorId, PrivComId, PubComId, TerrainId, TrainId};
use chesapeake::train_set::TrainSet;

#[test]
fn city_takes_stations_while_it_has_room() {
    let mut city = City::new(20, 2, None, Some(PubComId::LV));
    assert_eq!(city.home(), Some(PubComId::LV));
    assert!(city.can_place_station(PubComId::LV));
    city.place_station(PubComId::LV);
    assert!(city.has_station(PubComId::LV));
    assert!(!city.has_station(PubComId::PRR));
    assert_eq!(city.station_count(), 1);
    assert!(!city.can_place_station(PubComId::LV));
    assert!(city.can_place_station(PubComId::PRR));
    city.place_station(PubComId::PRR);
    assert_eq!(city.station_count(), 2);
    assert!(!city.can_place_station(PubComId::SRR));
}

#[test]
fn location_takes_one_station() {
    let mut location = Location::new([20, 30, 40, 50], "West".to_string(), None);
    assert_eq!(location.home(), None);
    assert_eq!(location.values(), [20, 30, 40, 50]);
    assert!(location.can_place_station());
    location.place_station(PubComId::NAndW);
    assert_eq!(location.station(), Some(PubComId::NAndW));
    assert!(!location.can_place_station());
}

#[test]
fn rail_places_stations_at_its_stop() {
    let mut rail = Rail::new(vec![1, 4], Some(Stop::City(City::new(10, 1, None, None))));
    assert_eq!(rail.edges(), &[1, 4]);
    assert!(rail.can_place_station(PubComId::CAndA));
    rail.place_station(PubComId::CAndA);
    assert!(!rail.can_place_station(PubComId::CAndA));
    assert!(!rail.can_place_station(PubComId::BAndO));
    match rail.stop() {
        Some(Stop::City(city)) => assert!(city.has_station(PubComId::CAndA)),
        _ => panic!("the rail has no city"),
    }
    let mut stop = Stop::Location(Location::new([1, 2, 3, 4], "East".to_string(), Some(PubComId::SRR)));
    assert_eq!(stop.home(), Some(PubComId::SRR));
    assert!(stop.can_place_station(PubComId::SRR));
    stop.place_station(PubComId::SRR);
    assert!(!stop.can_place_station(PubComId::LV));
}

fn tile() -> Tile {
    let through = Rail::new(vec![0, 3], None);
    let city = Rail::new(vec![2, 5], Some(Stop::City(City::new(30, 1, None, Some(PubComId::PRR)))));
    let second = Rail::new(vec![5, 1], Some(Stop::City(City::new(30, 1, None, Some(PubComId::LV)))));
    Tile::new(vec![through, city, second], ColorId::Green, vec![9])
}

#[test]
fn tile_places_a_station_on_the_first_rail_from_the_edge() {
    let mut tile = tile();
    assert_eq!(tile.color(), ColorId::Green);
    assert_eq!(tile.upgrades(), &[9]);
    assert_eq!(tile.rail_reaching(5), Some(1));
    assert_eq!(tile.rail_reaching(1), Some(2));
    assert_eq!(tile.rail_reaching(4), None);
    assert_eq!(tile.home(), Some((PubComId::PRR, 2)));
    assert!(!tile.can_place_station(PubComId::PRR, 0));
    assert!(!tile.can_place_station(PubComId::PRR, 4));
    assert!(tile.can_place_station(PubComId::PRR, 5));
    tile.place_station(PubComId::PRR, 5);
    assert!(!tile.can_place_station(PubComId::LV, 5));
    assert!(tile.can_place_station(PubComId::LV, 1));
    assert!(!tile.rails()[1].can_place_station(PubComId::LV));
}

#[test]
fn hex_with_a_tile_or_with_cities() {
    let mut on_tile = Hex::new(TerrainId::River, Some(Content::Tile(tile())), Some(PrivComId::CToP));
    assert_eq!(on_tile.terrain(), TerrainId::River);
    assert_eq!(on_tile.private(), Some(PrivComId::CToP));
    assert_eq!(on_tile.home(), Some((PubComId::PRR, 2)));
    assert!(on_tile.can_place_station(PubComId::PRR, 2));
    on_tile.place_station(PubComId::PRR, 2);
    assert!(!on_tile.can_place_station(PubComId::PRR, 2));
    let cities = vec![City::new(10, 1, None, None), City::new(10, 1, None, Some(PubComId::CAndO))];
    let mut waiting = Hex::new(TerrainId::Plain, Some(Content::Cities(cities)), None);
    assert_eq!(waiting.home(), Some((PubComId::CAndO, 0)));
    assert!(waiting.can_place_station(PubComId::CAndO, 3));
    waiting.place_station(PubComId::CAndO, 3);
    assert!(!waiting.can_place_station(PubComId::BAndO, 3));
    let empty = Hex::new(TerrainId::Mountain, None, None);
    assert_eq!(empty.home(), None);
    assert!(!empty.can_place_station(PubComId::BAndO, 0));
    let none: Vec<City> = Vec::new();
    let bare = Hex::new(TerrainId::Plain, Some(Content::Cities(none)), None);
    assert!(!bare.can_place_station(PubComId::BAndO, 0));
    assert_eq!(bare.home(), None);
}

#[test]
fn map_holds_one_hex_at_a_place() {
    let mut map = GameMap::new(2, 2);
    assert_eq!(map.width(), 2);
    assert_eq!(map.height(), 2);
    assert!(map.hex(0, 0).is_none());
    assert!(map.set_hex(0, 1, Hex::new(TerrainId::River, None, None)));
    assert!(!map.set_hex(0, 1, Hex::new(TerrainId::Plain, None, None)));
    assert!(!map.set_hex(2, 0, Hex::new(TerrainId::Plain, None, None)));
    assert!(!map.set_hex(0, 2, Hex::new(TerrainId::Plain, None, None)));
    assert_eq!(map.hex(0, 1).unwrap().terrain(), TerrainId::River);
    assert!(map.hex(5, 5).is_none());
    map.set_home(PubComId::BAndO, 0, 1, Some(3));
    assert_eq!(map.home(PubComId::BAndO), Some((0, 1, Some(3))));
    map.place_home_station(PubComId::BAndO);
    assert_eq!(map.hex(0, 1).unwrap().terrain(), TerrainId::River);
    map.set_home(PubComId::LV, 7, 7, None);
    map.place_home_station(PubComId::LV);
    map.set_home(PubComId::SRR, 1, 1, None);
    map.place_home_station(PubComId::SRR);
    assert!(map.hex(1, 1).is_none());
}

#[test]
fn home_station_on_a_tile_is_reached_from_the_home_edge() {
    let mut map = GameMap::new(1, 1);
    assert!(map.set_hex(0, 0, Hex::new(TerrainId::Plain, Some(Content::Tile(tile())), None)));
    map.set_home(PubComId::LV, 0, 0, Some(1));
    map.set_home(PubComId::PRR, 0, 0, None);
    map.place_home_station(PubComId::PRR);
    assert!(map.hex(0, 0).unwrap().can_place_station(PubComId::PRR, 2));
    map.place_home_station(PubComId::LV);
    assert!(!map.hex(0, 0).unwrap().can_place_station(PubComId::LV, 1));
    assert!(!map.hex(0, 0).unwrap().can_place_station(PubComId::PRR, 1));
    assert!(map.hex(0, 0).unwrap().can_place_station(PubComId::PRR, 5));
}

#[test]
fn track_lays_are_kept_by_hex() {
    let mut lays = TrackLayMap::new();
    assert!(lays.get((0, 0)).is_empty());
    lays.insert((1, 2), (7, 0));
    lays.insert((0, 0), (8, 3));
    lays.insert((1, 2), (9, 5));
    assert_eq!(lays.get((1, 2)), vec![(7, 0), (9, 5)]);
    assert_eq!(lays.get((0, 0)), vec![(8, 3)]);
    assert!(lays.get((2, 1)).is_empty());
}

#[test]
fn tile_set_holds_each_id_once() {
    let mut tiles = TileSet::new();
    assert_eq!(tiles.len(), 0);
    assert!(tiles.insert(7, tile(), 4));
    assert!(tiles.insert(-1, tile(), 0));
    assert!(!tiles.insert(7, tile(), 9));
    assert_eq!(tiles.len(), 2);
    assert_eq!(tiles.count(7), Some(4));
    assert_eq!(tiles.count(-1), Some(0));
    assert_eq!(tiles.count(8), None);
    assert!(tiles.contains(7));
    assert!(!tiles.contains(8));
}

#[test]
fn train_set_is_a_set() {
    let mut trains = TrainSet::new();
    assert!(!trains.contains(TrainId::Range2, 7));
    trains.insert(TrainId::Range2, 7);
    trains.insert(TrainId::Range2, 7);
    trains.insert(TrainId::Range2, 6);
    trains.insert(TrainId::Diesel, 7);
    assert!(trains.contains(TrainId::Range2, 7));
    assert!(trains.contains(TrainId::Range2, 6));
    assert!(trains.contains(TrainId::Diesel, 7));
    assert!(!trains.contains(TrainId::Range3, 7));
}
