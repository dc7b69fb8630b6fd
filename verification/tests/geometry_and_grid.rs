use negforge_core::geometry::GateGeometry;
use negforge_core::grid::{Grid, GridError, Region};

#[test]
fn gate_counts_match_the_architectures() {
    assert_eq!(GateGeometry::Planar.gate_count(), 1);
    assert_eq!(GateGeometry::FinFet.gate_count(), 2);
    assert_eq!(GateGeometry::TriGate.gate_count(), 3);
    assert_eq!(GateGeometry::Nanoribbon.gate_count(), 4);
}

#[test]
fn more_gates_in_each_successive_architecture() {
    let counts: Vec<u32> = [
        GateGeometry::Planar,
        GateGeometry::FinFet,
        GateGeometry::TriGate,
        GateGeometry::Nanoribbon,
    ]
    .iter()
    .map(|g| g.gate_count())
    .collect();
    assert!(counts.windows(2).all(|w| w[0] < w[1]));
}

#[test]
fn grid_from_cell_counts() {
    // Default device: l_ds = 15 * floor(lambda) = 60 nm, l_ch = 40 nm, a = 0.5 nm.
    let g = Grid::new(320, 120);
    assert_eq!(g.n, 321);
    assert_eq!(g.n_left, 120);
    assert_eq!(g.n_right, 201);
}

#[test]
fn checked_grid_reports_each_error() {
    assert_eq!(Grid::checked(usize::MAX, 0), Err(GridError::TooManySites));
    assert_eq!(Grid::checked(10, 12), Err(GridError::ContactsExceedDevice));
    assert_eq!(Grid::checked(0, 0), Err(GridError::TooFewSites));
    assert_eq!(Grid::checked(0, 1), Err(GridError::TooFewSites));
    assert_eq!(
        Grid::checked(30, 10),
        Ok(Grid { n: 31, n_left: 10, n_right: 21 })
    );
    // A contact as long as the whole chain still leaves a valid grid.
    assert_eq!(Grid::checked(5, 6), Ok(Grid { n: 6, n_left: 6, n_right: 0 }));
}

#[test]
fn small_device_layout() {
    // a = 1 nm, l_ds = l_ch = 10 nm: 30 cells, 10 of them per contact.
    let g = Grid::new(30, 10);
    let regions = g.site_regions();
    assert_eq!(regions.len(), 31);
    for (i, r) in regions.iter().enumerate() {
        let expected = if i < 10 {
            Region::Source
        } else if i < 20 {
            Region::Channel
        } else {
            Region::Drain
        };
        assert_eq!(*r, expected, "site {i}");
    }
    assert_eq!(regions.iter().filter(|r| **r == Region::Source).count(), 10);
    assert_eq!(regions.iter().filter(|r| **r == Region::Drain).count(), 11);
    assert_eq!(g.region_of(30), Region::Drain);
}

#[test]
fn contacts_overlapping_the_channel_leave_no_channel() {
    // Contacts longer than half the chain: the drain starts before the
    // source ends, and drain labels win.
    let g = Grid::new(10, 8);
    assert_eq!(g.n_right, 3);
    let regions = g.site_regions();
    assert_eq!(regions[0], Region::Source);
    assert_eq!(regions[1], Region::Source);
    assert!(regions[2..].iter().all(|r| *r == Region::Drain));
    assert!(!regions.contains(&Region::Channel));

    let all_drain = Grid::new(3, 4);
    assert!(all_drain.site_regions().iter().all(|r| *r == Region::Drain));
}

#[test]
fn regions_never_go_back_along_the_chain() {
    let rank = |r: &Region| match r {
        Region::Source => 0,
        Region::Channel => 1,
        Region::Drain => 2,
    };
    for (cells, contact) in [(30, 10), (10, 8), (7, 0), (7, 8), (320, 120)] {
        let regions = Grid::new(cells, contact).site_regions();
        assert!(regions.windows(2).all(|w| rank(&w[0]) <= rank(&w[1])));
        assert_eq!(*regions.last().unwrap(), Region::Drain);
    }
}
