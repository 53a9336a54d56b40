use game::tiles::{MapError, Tile, TileMap, TileType};

#[test]
fn test_tile_map_iter() -> Result<(), MapError> {
    let positions: Vec<Tile> = TileMap::new(10, 10)?.iter().collect();
    assert_eq!(100, positions.len());
    Ok(())
}

#[test]
fn zero_width_or_height_is_rejected() {
    assert!(matches!(TileMap::new(0, 4), Err(MapError::InvalidDimensions)));
    assert!(matches!(TileMap::new(4, 0), Err(MapError::InvalidDimensions)));
    assert!(matches!(TileMap::new(0, 0), Err(MapError::InvalidDimensions)));
}

#[test]
fn walls_exactly_on_the_border() {
    let map = TileMap::new(5, 4).unwrap();
    let tiles = map.iter().collect();
    assert_eq!(tiles.len(), 20);
    for (i, t) in tiles.iter().enumerate() {
        let (x, y) = (i % 5, i / 5);
        assert_eq!(t.position, (x as u32, y as u32));
        let border = x == 0 || y == 0 || x == 4 || y == 3;
        let expected = if border { TileType::Wall } else { TileType::Floor };
        assert_eq!(t.ty, expected);
    }
    let floors = tiles.iter().filter(|t| t.ty == TileType::Floor).count();
    assert_eq!(floors, 3 * 2);
}

#[test]
fn positions_follow_the_width_on_a_wide_map() {
    let map = TileMap::new(4, 2).unwrap();
    let mut it = map.iter();
    let mut seen = Vec::new();
    while let Some(t) = it.next() {
        seen.push(t.position);
    }
    assert_eq!(
        seen,
        vec![(0, 0), (1, 0), (2, 0), (3, 0), (0, 1), (1, 1), (2, 1), (3, 1)]
    );
    assert!(it.next().is_none());
}

#[test]
fn one_by_one_map_is_a_single_wall() {
    let map = TileMap::new(1, 1).unwrap();
    let tiles = map.iter().collect();
    assert_eq!(tiles.len(), 1);
    assert_eq!(tiles[0].ty, TileType::Wall);
}

#[test]
fn three_by_three_has_one_floor_in_the_middle() {
    let map = TileMap::new(3, 3).unwrap();
    let tiles = map.iter().collect();
    let floors: Vec<(u32, u32)> = tiles
        .iter()
        .filter(|t| t.ty == TileType::Floor)
        .map(|t| t.position)
        .collect();
    assert_eq!(floors, vec![(1, 1)]);
}

#[test]
fn default_map_is_ten_by_ten() {
    let map = TileMap::default();
    assert_eq!(map.dimensions(), (10, 10));
    assert_eq!(map.iter().collect().len(), 100);
}

#[test]
fn dimensions_are_width_then_height() {
    let map = TileMap::new(7, 3).unwrap();
    assert_eq!(map.dimensions(), (7, 3));
}

#[test]
fn a_cursor_can_be_restarted() {
    let map = TileMap::new(3, 2).unwrap();
    let mut first = map.iter();
    first.next();
    first.next();
    assert_eq!(first.collect().len(), 4);
    assert_eq!(map.iter().collect().len(), 6);
}
