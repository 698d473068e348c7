use pannotia::routedb::{
    rmux_idx_for_neighbor, rmux_idx_for_self, rmux_idx_for_span4, rmux_purpose, Direction,
    RMUXPurpose,
};

#[test]
fn rmux_consistency_check() {
    for dir in [Direction::N, Direction::S, Direction::E, Direction::W] {
        for i in 0..12 {
            let rmux_i = rmux_idx_for_span4(dir, i);
            assert_eq!(
                rmux_purpose(rmux_i as u8),
                RMUXPurpose::Span4 {
                    going_dir: dir,
                    wire_idx: i
                }
            )
        }
    }

    for i in 0..16 {
        let rmux_i = rmux_idx_for_neighbor(i);
        assert_eq!(rmux_purpose(rmux_i as u8), RMUXPurpose::LeftNeighbor(i));
    }

    for i in 0..32 {
        let rmux_i = rmux_idx_for_self(i);
        assert_eq!(rmux_purpose(rmux_i as u8), RMUXPurpose::SelfWire(i));
    }
}

#[test]
fn rmux_idx_for_self_upper_range() {
    assert_eq!(rmux_idx_for_self(42), 130);
    assert_eq!(rmux_idx_for_self(83), 251);
}
