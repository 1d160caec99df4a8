use chesapeake::config::{is_shallow, ConfigError, ConfigValue};
use chesapeake::economy::{ParTrack, StockChart};
use chesapeake::geography::{City, GameMap, Hex, Location, Rail, Stop, Tile, TileSet};
use chesapeake::ids::{ColorId, PrivComId, PubComId, TerrainId, TrainId};
use chesapeake::train_set::TrainSet;
use std::str::FromStr;

fn doc(s: &str) -> ConfigValue {
    ConfigValue::parse(s).unwrap()
}

fn error<T>(result: Result<T, ConfigError>) -> String {
    match result {
        Ok(_) => panic!("the text was read"),
        Err(e) => format!("{:?}", e),
    }
}

#[test]
fn toml_text_becomes_a_document() {
    let doc = doc("width = 3\nname = \"Baltimore\"\nvalues = [1, -2]\nratio = 0.5\n[home]\nx = 7\n");
    assert_eq!(doc.get("width").unwrap().as_integer(), Some(3));
    assert_eq!(doc.get("name").unwrap().as_str(), Some("Baltimore"));
    assert_eq!(doc.get("name").unwrap().as_integer(), None);
    let values = doc.get("values").unwrap().as_array().unwrap();
    assert_eq!(values.len(), 2);
    assert_eq!(values[0].as_integer(), Some(1));
    assert_eq!(values[1].as_integer(), Some(-2));
    assert!(matches!(doc.get("ratio"), Some(ConfigValue::Other)));
    assert_eq!(doc.get("home").unwrap().get("x").unwrap().as_integer(), Some(7));
    assert!(doc.get("height").is_none());
    assert!(doc.get("width").unwrap().get("x").is_none());
    assert!(doc.get("width").unwrap().as_array().is_none());
    assert!(doc.get("width").unwrap().as_str().is_none());
}

#[test]
fn text_that_is_no_toml_is_refused() {
    assert_eq!(error(ConfigValue::parse("values = [")), "InvalidToml");
    assert_eq!(error(ConfigValue::parse("= 3")), "InvalidToml");
    assert_eq!(error(ParTrack::from_toml("values = [70, 80")), "InvalidToml");
    assert_eq!(error(StockChart::from_toml("x")), "InvalidToml");
    assert_eq!(error(TileSet::from_toml("[[tiles")), "InvalidToml");
    assert_eq!(error(TrainSet::from_toml("trains = ]")), "InvalidToml");
    assert_eq!(error(GameMap::from_toml("width = = 1")), "InvalidToml");
}

#[test]
fn text_that_nests_too_deep_is_refused() {
    let deep = format!("values = {}1{}", "[".repeat(65), "]".repeat(65));
    assert_eq!(error(ConfigValue::parse(&deep)), "TooDeep");
    assert_eq!(error(ParTrack::from_toml(&deep)), "TooDeep");
    let nested = format!("values = {}1{}", "[".repeat(64), "]".repeat(64));
    assert!(ConfigValue::parse(&nested).is_ok());
    let dotted = format!("{}a = 1", "a.".repeat(65));
    assert_eq!(error(ConfigValue::parse(&dotted)), "TooDeep");
    let lines = "version = \"1.2.3\"\n".repeat(100);
    assert_eq!(error(ConfigValue::parse(&lines)), "InvalidToml");
    let many = (0..100).map(|i| format!("v{} = [1.5, [2.5]]\n", i)).collect::<String>();
    assert!(ConfigValue::parse(&many).is_ok());
    assert!(is_shallow(&many));
    assert!(!is_shallow(&deep));
}

#[test]
fn brackets_in_strings_and_comments_are_not_closed() {
    // a closing bracket in a string or in a comment closes nothing
    let hidden = format!("a = {}1 # {}", "[\"]\", ".repeat(33), "]".repeat(40));
    assert!(is_shallow(&hidden));
    let hidden = format!("a = {}1", "[\"]\", ".repeat(65));
    assert!(!is_shallow(&hidden));
    let literal = format!("a = {}1", "['}}', ".repeat(65));
    assert!(!is_shallow(&literal));
    let escaped = format!("a = {}1", "[\"\\\"]\", ".repeat(65));
    assert!(!is_shallow(&escaped));
    let comment = format!("{}a = 1", "a = [ # ]\n1,\n".repeat(65));
    assert!(!is_shallow(&comment));
    // arrays that are closed do not add up
    let closed = "a = [\"x\", ['y'], {b = \"z\"}]\n".repeat(200);
    assert!(is_shallow(&closed));
    assert!(ConfigValue::parse("a = [\"x]\", ['y]'], {b = \"z}\"}] # ]]").is_ok());
    // once a string of several lines has begun nothing is closed any more
    let several = format!("s = \"\"\"\n]\n\"\"\"\n{}", "a = [1]\n".repeat(64));
    assert!(is_shallow(&several));
    let several = format!("s = \"\"\"\n]\n\"\"\"\n{}", "a = [1]\n".repeat(65));
    assert!(!is_shallow(&several));
}

#[test]
fn par_track_is_read_from_toml() {
    let track = ParTrack::from_toml("values = [70, 80, 95]").unwrap();
    assert_eq!(track.values(), &[70, 80, 95]);
    assert_eq!(track.value(PubComId::PRR), None);
    assert_eq!(error(ParTrack::from_toml("")), "Missing(\"values\")");
    assert_eq!(error(ParTrack::from_toml("values = 70")), "WrongType(\"values\", \"Array\")");
    assert_eq!(
        error(ParTrack::from_toml("values = [70, \"80\"]")),
        "WrongType(\"value\", \"Integer\")"
    );
    assert_eq!(error(ParTrack::from_toml("values = [80, 70, 95]")), "ParValues");
    // an integer is cut to 32 bits: 4294967366 is 70 more than 2 to the 32
    assert_eq!(ParTrack::from_toml("values = [4294967366]").unwrap().values(), &[70]);
    assert_eq!(error(ParTrack::from_toml("values = [-70]")), "ParValues");
    assert!(ParTrack::from_config(&doc("values = [70]")).is_ok());
}

#[test]
fn stock_chart_is_read_from_toml() {
    let text = "values = [[1, 2, 3, 4, 5], [1, 2, 3, 4, 5], [1, 2, 3, 4, 95], [1, 2, 3, 80], [1, 2, 70]]";
    let chart = StockChart::from_toml(text).unwrap();
    assert_eq!(chart.start_value(70), Some(70));
    assert_eq!(chart.start_value(80), Some(80));
    assert_eq!(chart.start_value(95), Some(95));
    assert_eq!(chart.value(PubComId::BAndO), None);
    assert_eq!(error(StockChart::from_toml("other = 1")), "Missing(\"values\")");
    assert_eq!(error(StockChart::from_toml("values = 1")), "WrongType(\"values\", \"Array\")");
    assert_eq!(error(StockChart::from_toml("values = [1]")), "WrongType(\"values\", \"Array\")");
    assert_eq!(
        error(StockChart::from_toml("values = [[1], [true]]")),
        "WrongType(\"value\", \"Integer\")"
    );
    assert_eq!(error(StockChart::from_toml("values = [[1, 2, 3]]")), "StartFields");
}

#[test]
fn train_set_is_read_from_toml() {
    let text = "[[trains]]\ntrain = \"2\"\ncount = 7\n[[trains]]\ntrain = \"D\"\ncount = 5\n";
    let trains = TrainSet::from_toml(text).unwrap();
    assert!(trains.contains(TrainId::Range2, 7));
    assert!(trains.contains(TrainId::Diesel, 5));
    assert!(!trains.contains(TrainId::Diesel, 7));
    assert!(!trains.contains(TrainId::Range3, 7));
    assert_eq!(error(TrainSet::from_toml("")), "Missing(\"trains\")");
    assert_eq!(error(TrainSet::from_toml("trains = 2")), "WrongType(\"trains\", \"Array\")");
    assert_eq!(error(TrainSet::from_toml("[[trains]]\ncount = 1")), "Missing(\"train\")");
    assert_eq!(
        error(TrainSet::from_toml("[[trains]]\ntrain = 2\ncount = 1")),
        "WrongType(\"train\", \"String\")"
    );
    assert_eq!(
        error(TrainSet::from_toml("[[trains]]\ntrain = \"9\"\ncount = 1")),
        "Unparsable(\"TrainId\")"
    );
    assert_eq!(error(TrainSet::from_toml("[[trains]]\ntrain = \"2\"")), "Missing(\"count\")");
    assert_eq!(
        error(TrainSet::from_toml("[[trains]]\ntrain = \"2\"\ncount = \"1\"")),
        "WrongType(\"count\", \"Integer\")"
    );
}

#[test]
fn city_is_read_from_toml() {
    let city = City::from_toml(&doc("value = 30\nspots = 2\nname = \"Baltimore\"\nhome = \"B&O\"")).unwrap();
    assert_eq!(city.home(), Some(PubComId::BAndO));
    assert_eq!(city.station_count(), 0);
    assert!(city.can_place_station(PubComId::PRR));
    let plain = City::from_toml(&doc("value = 10\nspots = 0")).unwrap();
    assert_eq!(plain.home(), None);
    assert!(!plain.can_place_station(PubComId::PRR));
    assert_eq!(error(City::from_toml(&doc("spots = 1"))), "Missing(\"value\")");
    assert_eq!(
        error(City::from_toml(&doc("value = \"x\"\nspots = 1"))),
        "WrongType(\"value\", \"Integer\")"
    );
    assert_eq!(error(City::from_toml(&doc("value = 1"))), "Missing(\"spots\")");
    assert_eq!(
        error(City::from_toml(&doc("value = 1\nspots = []"))),
        "WrongType(\"spots\", \"Integer\")"
    );
    assert_eq!(
        error(City::from_toml(&doc("value = 1\nspots = 1\nname = 3"))),
        "WrongType(\"name\", \"String\")"
    );
    assert_eq!(
        error(City::from_toml(&doc("value = 1\nspots = 1\nhome = 3"))),
        "WrongType(\"start\", \"String\")"
    );
    assert_eq!(
        error(City::from_toml(&doc("value = 1\nspots = 1\nhome = \"X\""))),
        "Unparsable(\"PubComId\")"
    );
}

#[test]
fn location_is_read_from_toml() {
    let location = Location::from_toml(&doc("values = [20, 30, 40, 50]\nname = \"Ohio\"\nhome = \"C&O\"")).unwrap();
    assert_eq!(location.values(), [20, 30, 40, 50]);
    assert_eq!(location.home(), Some(PubComId::CAndO));
    assert_eq!(location.station(), None);
    assert_eq!(error(Location::from_toml(&doc("name = \"Ohio\""))), "Missing(\"values\")");
    assert_eq!(
        error(Location::from_toml(&doc("values = 3\nname = \"Ohio\""))),
        "WrongType(\"values\", \"Array\")"
    );
    assert_eq!(
        error(Location::from_toml(&doc("values = [1, 2, 3]\nname = \"Ohio\""))),
        "ValuesLength"
    );
    assert_eq!(
        error(Location::from_toml(&doc("values = [1, 2, \"3\", 4]\nname = \"Ohio\""))),
        "WrongType(\"value\", \"Integer\")"
    );
    assert_eq!(error(Location::from_toml(&doc("values = [1, 2, 3, 4]"))), "Missing(\"name\")");
    assert_eq!(
        error(Location::from_toml(&doc("values = [1, 2, 3, 4]\nname = 1"))),
        "WrongType(\"name\", \"String\")"
    );
}

#[test]
fn rail_is_read_from_toml() {
    let rail = Rail::from_toml(&doc("edges = [0, 3]\n[city]\nvalue = 20\nspots = 1\nhome = \"PRR\"")).unwrap();
    assert_eq!(rail.edges(), &[0, 3]);
    assert!(rail.reaches(3));
    assert!(!rail.reaches(1));
    assert!(matches!(rail.stop(), Some(Stop::City(_))));
    assert_eq!(rail.stop().unwrap().home(), Some(PubComId::PRR));
    let off_board = Rail::from_toml(&doc("edges = [1]\n[location]\nvalues = [1, 2, 3, 4]\nname = \"West\"")).unwrap();
    assert!(matches!(off_board.stop(), Some(Stop::Location(_))));
    let track = Rail::from_toml(&doc("edges = [1, 4]")).unwrap();
    assert!(track.stop().is_none());
    assert!(!track.can_place_station(PubComId::PRR));
    assert_eq!(error(Rail::from_toml(&doc("x = 1"))), "Missing(\"edges\")");
    assert_eq!(error(Rail::from_toml(&doc("edges = 1"))), "WrongType(\"edges\", \"Array\")");
    assert_eq!(error(Rail::from_toml(&doc("edges = [\"a\"]"))), "WrongType(\"edge\", \"Integer\")");
    assert_eq!(error(Rail::from_toml(&doc("edges = [1]\n[city]\nvalue = 1"))), "Missing(\"spots\")");
    assert_eq!(error(Rail::from_toml(&doc("edges = [1]\n[location]\nname = \"W\""))), "Missing(\"values\")");
}

#[test]
fn tile_is_read_from_toml() {
    let text = "color = \"Yellow\"\nupgrades = [14, -15]\n[[rails]]\nedges = [0, 1]\n[[rails]]\nedges = [2]\n";
    let tile = Tile::from_toml(&doc(text)).unwrap();
    assert_eq!(tile.color(), ColorId::Yellow);
    assert_eq!(tile.upgrades(), &[14, -15]);
    assert_eq!(tile.rails().len(), 2);
    assert_eq!(tile.rail_reaching(2), Some(1));
    assert_eq!(tile.rail_reaching(5), None);
    assert_eq!(tile.home(), None);
    let bare = Tile::from_toml(&doc("rails = []\ncolor = \"Gray\"")).unwrap();
    assert_eq!(bare.upgrades().len(), 0);
    assert_eq!(error(Tile::from_toml(&doc("color = \"Gray\""))), "Missing(\"rails\")");
    assert_eq!(
        error(Tile::from_toml(&doc("rails = 1\ncolor = \"Gray\""))),
        "WrongType(\"rails\", \"Array\")"
    );
    assert_eq!(error(Tile::from_toml(&doc("rails = []"))), "Missing(\"color\")");
    assert_eq!(
        error(Tile::from_toml(&doc("rails = []\ncolor = 1"))),
        "WrongType(\"color\", \"String\")"
    );
    assert_eq!(
        error(Tile::from_toml(&doc("rails = []\ncolor = \"Pink\""))),
        "Unparsable(\"ColorId\")"
    );
    assert_eq!(
        error(Tile::from_toml(&doc("rails = []\ncolor = \"Pink\"\nupgrades = 1"))),
        "WrongType(\"upgrades\", \"Array\")"
    );
    assert_eq!(
        error(Tile::from_toml(&doc("rails = []\ncolor = \"Gray\"\nupgrades = [\"1\"]"))),
        "WrongType(\"upgrade\", \"Integer\")"
    );
}

#[test]
fn tile_set_is_read_from_toml() {
    let text = "[[tiles]]\nid = 7\ncount = 4\nrails = []\ncolor = \"Yellow\"\n[[tiles]]\nid = 8\ncount = 1\nrails = []\ncolor = \"Green\"\n";
    let tiles = TileSet::from_toml(text).unwrap();
    assert_eq!(tiles.len(), 2);
    assert_eq!(tiles.count(7), Some(4));
    assert_eq!(tiles.count(8), Some(1));
    assert_eq!(tiles.count(9), None);
    assert!(tiles.contains(8));
    assert!(!tiles.contains(0));
    assert_eq!(error(TileSet::from_toml("")), "Missing(\"tiles\")");
    assert_eq!(error(TileSet::from_toml("tiles = 1")), "WrongType(\"tiles\", \"Array\")");
    assert_eq!(error(TileSet::from_toml("[[tiles]]\ncount = 4")), "Missing(\"id\")");
    assert_eq!(
        error(TileSet::from_toml("[[tiles]]\nid = \"a\"")),
        "WrongType(\"id\", \"Integer\")"
    );
    assert_eq!(error(TileSet::from_toml("[[tiles]]\nid = 1")), "Missing(\"count\")");
    assert_eq!(
        error(TileSet::from_toml("[[tiles]]\nid = 1\ncount = 1")),
        "Missing(\"rails\")"
    );
    let twice = "[[tiles]]\nid = 7\ncount = 4\nrails = []\ncolor = \"Yellow\"\n[[tiles]]\nid = 7\n";
    assert_eq!(error(TileSet::from_toml(twice)), "DuplicateTile(7)");
}

#[test]
fn hex_is_read_from_toml() {
    let plain = Hex::from_toml(&doc("x = 1")).unwrap();
    assert_eq!(plain.terrain(), TerrainId::Plain);
    assert_eq!(plain.private(), None);
    assert_eq!(plain.home(), None);
    assert!(!plain.can_place_station(PubComId::PRR, 0));
    let text = "terrain = \"River\"\nprivate = \"D&R\"\n[[cities]]\nvalue = 10\nspots = 1\n[[cities]]\nvalue = 20\nspots = 1\nhome = \"LV\"\n";
    let cities = Hex::from_toml(&doc(text)).unwrap();
    assert_eq!(cities.terrain(), TerrainId::River);
    assert_eq!(cities.private(), Some(PrivComId::DAndR(20)));
    assert_eq!(cities.home(), Some((PubComId::LV, 0)));
    assert!(cities.can_place_station(PubComId::LV, 0));
    let tile = "color = \"Gray\"\n[[rails]]\nedges = [4, 1]\n[[rails]]\nedges = [2, 5]\n[rails.city]\nvalue = 30\nspots = 2\nhome = \"SRR\"\n";
    let with_tile = Hex::from_toml(&doc(tile)).unwrap();
    assert_eq!(with_tile.home(), Some((PubComId::SRR, 2)));
    assert!(with_tile.can_place_station(PubComId::SRR, 5));
    assert!(!with_tile.can_place_station(PubComId::SRR, 4));
    assert!(!with_tile.can_place_station(PubComId::SRR, 0));
    assert_eq!(error(Hex::from_toml(&doc("terrain = 1"))), "WrongType(\"terrain\", \"String\")");
    assert_eq!(error(Hex::from_toml(&doc("terrain = \"Sea\""))), "Unparsable(\"TerrainId\")");
    assert_eq!(error(Hex::from_toml(&doc("private = 2"))), "WrongType(\"private\", \"String\")");
    assert_eq!(error(Hex::from_toml(&doc("private = \"X\""))), "Unparsable(\"PrivComId\")");
    assert_eq!(error(Hex::from_toml(&doc("cities = 2"))), "WrongType(\"cities\", \"Array\")");
    assert_eq!(error(Hex::from_toml(&doc("rails = 2\ncolor = \"Gray\""))), "WrongType(\"rails\", \"Array\")");
    assert!(Hex::from_toml(&doc("rails = 2")).is_ok());
}

#[test]
fn map_is_read_from_toml() {
    let text = "width = 2\nheight = 3\n[[hexes]]\nx = 1\ny = 2\nterrain = \"Mountain\"\n[[hexes.cities]]\nvalue = 10\nspots = 1\nhome = \"PRR\"\n[[hexes]]\nx = 0\ny = 0\n[[homes]]\nid = \"PRR\"\nx = 1\ny = 2\n[[homes]]\nid = \"LV\"\nx = 0\ny = 1\nedge = 4\n";
    let mut map = GameMap::from_toml(text).unwrap();
    assert_eq!(map.width(), 2);
    assert_eq!(map.height(), 3);
    assert_eq!(map.hex(1, 2).unwrap().terrain(), TerrainId::Mountain);
    assert_eq!(map.hex(1, 2).unwrap().home(), Some((PubComId::PRR, 0)));
    assert!(map.hex(0, 0).is_some());
    assert!(map.hex(0, 1).is_none());
    assert!(map.hex(2, 0).is_none());
    assert_eq!(map.home(PubComId::PRR), Some((1, 2, None)));
    assert_eq!(map.home(PubComId::LV), Some((0, 1, Some(4))));
    assert_eq!(map.home(PubComId::SRR), None);
    map.place_home_station(PubComId::PRR);
    assert!(!map.hex(1, 2).unwrap().can_place_station(PubComId::PRR, 0));
    map.place_home_station(PubComId::LV);
    assert!(map.track_lay_map(PubComId::PRR).get((1, 2)).is_empty());
    assert!(GameMap::from_str(text).is_ok());
    assert!(GameMap::from_config(&doc(text)).is_ok());
}

#[test]
fn map_errors_are_told_apart() {
    assert_eq!(error(GameMap::from_toml("height = 1")), "Missing(\"width\")");
    assert_eq!(error(GameMap::from_toml("width = \"1\"")), "WrongType(\"width\", \"Integer\")");
    assert_eq!(error(GameMap::from_toml("width = 1")), "Missing(\"height\")");
    assert_eq!(
        error(GameMap::from_toml("width = 1\nheight = []")),
        "WrongType(\"height\", \"Integer\")"
    );
    assert_eq!(error(GameMap::from_toml("width = 1\nheight = 1")), "Missing(\"hexes\")");
    assert_eq!(
        error(GameMap::from_toml("width = 1\nheight = 1\nhexes = 1")),
        "WrongType(\"hexes\", \"Array\")"
    );
    assert_eq!(
        error(GameMap::from_toml("width = 1\nheight = 1\n[[hexes]]\ny = 0")),
        "Missing(\"x\")"
    );
    assert_eq!(
        error(GameMap::from_toml("width = 1\nheight = 1\n[[hexes]]\nx = 0")),
        "Missing(\"y\")"
    );
    assert_eq!(
        error(GameMap::from_toml("width = 1\nheight = 1\n[[hexes]]\nx = 0\ny = \"0\"")),
        "WrongType(\"y\", \"Integer\")"
    );
    assert_eq!(
        error(GameMap::from_toml("width = 1\nheight = 1\n[[hexes]]\nx = 1\ny = 0")),
        "HexOutside(1, 0)"
    );
    assert_eq!(
        error(GameMap::from_toml("width = 1\nheight = 1\n[[hexes]]\nx = 0\ny = 0\n[[hexes]]\nx = 0\ny = 0")),
        "HexOccupied(0, 0)"
    );
    assert_eq!(
        error(GameMap::from_toml("width = 1\nheight = 1\n[[hexes]]\nx = 0\ny = 0\nterrain = \"Sea\"")),
        "Unparsable(\"TerrainId\")"
    );
    assert_eq!(error(GameMap::from_toml("width = 1\nheight = 1\nhexes = []")), "Missing(\"homes\")");
    assert_eq!(
        error(GameMap::from_toml("width = 1\nheight = 1\nhexes = []\nhomes = 1")),
        "WrongType(\"homes\", \"Array\")"
    );
    assert_eq!(
        error(GameMap::from_toml("width = 1\nheight = 1\nhexes = []\n[[homes]]\nx = 0")),
        "Missing(\"id\")"
    );
    assert_eq!(
        error(GameMap::from_toml("width = 1\nheight = 1\nhexes = []\n[[homes]]\nid = 1")),
        "WrongType(\"id\", \"String\")"
    );
    assert_eq!(
        error(GameMap::from_toml("width = 1\nheight = 1\nhexes = []\n[[homes]]\nid = \"X\"")),
        "Unparsable(\"PubComId\")"
    );
    assert_eq!(
        error(GameMap::from_toml("width = 1\nheight = 1\nhexes = []\n[[homes]]\nid = \"LV\"\nx = 0\ny = 0\nedge = \"1\"")),
        "WrongType(\"edge\", \"Integer\")"
    );
}
