//! The device grid: how many sites the source-channel-drain chain has, where
//! the contact regions end, and which region each site belongs to.
//!
//! The chain spans `2 * l_ds + l_ch` at spacing `a`. The number of whole
//! cells in that span and in one contact are computed from the lengths by
//! the caller; everything from there on is integer bookkeeping, kept here.

use vstd::prelude::*;

verus! {

/// Part of the source-channel-drain chain a site lies in.
#[derive(Clone, Copy, Debug, PartialEq, Eq, Structural)]
pub enum Region {
    /// The grounded source contact.
    Source,
    /// The gated channel.
    Channel,
    /// The drain contact, biased at `V_ds`.
    Drain,
}

/// Position of a region along the chain, from source to drain.
pub open spec fn region_rank(r: Region) -> nat {
    match r {
        Region::Source => 0,
        Region::Channel => 1,
        Region::Drain => 2,
    }
}

/// First site of the drain: `n_right - 1` (0-based), or 0 when `n_right` is 0.
pub open spec fn drain_start(n_right: nat) -> nat {
    if n_right >= 1 {
        (n_right - 1) as nat
    } else {
        0
    }
}

/// Region of site `i`. The drain is every site from `drain_start(n_right)`
/// on; the channel is every other site from `n_left` on; the rest is the
/// source.
pub open spec fn region_at(i: nat, n_left: nat, n_right: nat) -> Region {
    if i >= drain_start(n_right) {
        Region::Drain
    } else if i >= n_left {
        Region::Channel
    } else {
        Region::Source
    }
}

/// Grid sizes of a device.
#[derive(Clone, Copy, Debug, PartialEq, Eq, Structural)]
pub struct Grid {
    /// Number of grid sites along the chain.
    pub n: usize,
    /// Last site (0-based) of the source region, i.e. the number of whole
    /// cells in one contact.
    pub n_left: usize,
    /// `n - n_left`; the drain starts at site `n_right - 1`.
    pub n_right: usize,
}

/// Reasons a grid cannot be built.
#[derive(Clone, Copy, Debug, PartialEq, Eq, Structural)]
pub enum GridError {
    /// The number of sites does not fit in a `usize`.
    TooManySites,
    /// A contact is longer than the whole chain.
    ContactsExceedDevice,
    /// The chain has a single site, too few for the second-difference
    /// operator of the electrostatic solve.
    TooFewSites,
}

impl Grid {
    /// The sizes are consistent: `n_right` counts the sites after the source.
    pub open spec fn wf(self) -> bool {
        &&& self.n_left <= self.n
        &&& self.n_right == self.n - self.n_left
    }

    /// Grid with `total_cells + 1` sites, `contact_cells` of them before the
    /// channel: `n = total_cells + 1`, `n_left = contact_cells`,
    /// `n_right = n - n_left`.
    pub fn new(total_cells: usize, contact_cells: usize) -> (g: Grid)
        requires
            total_cells < usize::MAX,
            contact_cells <= total_cells + 1,
        ensures
            g.wf(),
            g.n == total_cells + 1,
            g.n_left == contact_cells,
            g.n_right == total_cells + 1 - contact_cells,
    {
        let n = total_cells + 1;
        Grid { n, n_left: contact_cells, n_right: n - contact_cells }
    }

    /// [`Grid::new`] for sizes that come from user input: reports the sizes
    /// on which the grid cannot be built or solved instead of failing.
    pub fn checked(total_cells: usize, contact_cells: usize) -> (r: Result<Grid, GridError>)
        ensures
            total_cells == usize::MAX <==> r == Err::<Grid, GridError>(GridError::TooManySites),
            total_cells < usize::MAX && contact_cells > total_cells + 1 <==> r == Err::<
                Grid,
                GridError,
            >(GridError::ContactsExceedDevice),
            total_cells == 0 && contact_cells <= 1 <==> r == Err::<Grid, GridError>(
                GridError::TooFewSites,
            ),
            r matches Ok(g) ==> {
                &&& g.wf()
                &&& g.n == total_cells + 1
                &&& g.n >= 2
                &&& g.n_left == contact_cells
                &&& g.n_right == total_cells + 1 - contact_cells
            },
    {
        if total_cells == usize::MAX {
            Err(GridError::TooManySites)
        } else if contact_cells > total_cells + 1 {
            Err(GridError::ContactsExceedDevice)
        } else if total_cells == 0 {
            Err(GridError::TooFewSites)
        } else {
            Ok(Grid::new(total_cells, contact_cells))
        }
    }

    /// Region of site `i`, as laid out by the device's potential profiles.
    pub fn region_of(&self, i: usize) -> (r: Region)
        ensures
            r == region_at(i as nat, self.n_left as nat, self.n_right as nat),
            r == Region::Drain <==> self.n_right == 0 || i + 1 >= self.n_right,
            r == Region::Channel <==> self.n_left <= i && i + 1 < self.n_right,
            r == Region::Source <==> i < self.n_left && i + 1 < self.n_right,
    {
        proof {
            lemma_region_boundaries(i as nat, self.n_left as nat, self.n_right as nat);
        }
        let drain_start = if self.n_right >= 1 {
            self.n_right - 1
        } else {
            0
        };
        if i >= drain_start {
            Region::Drain
        } else if i >= self.n_left {
            Region::Channel
        } else {
            Region::Source
        }
    }

    /// Region of every site `0..n`. Each potential profile of the device
    /// takes one value per region: zero in the source, gate bias and
    /// barrier height in the channel, drain bias in the drain. The sizes must not
    /// put a non-empty channel past the end of the grid (always so on a
    /// well-formed grid).
    pub fn site_regions(&self) -> (regions: Vec<Region>)
        requires
            drain_start(self.n_right as nat) <= self.n || drain_start(self.n_right as nat)
                <= self.n_left,
        ensures
            regions@.len() == self.n,
            forall|i: int|
                0 <= i < self.n ==> #[trigger] regions@[i] == region_at(
                    i as nat,
                    self.n_left as nat,
                    self.n_right as nat,
                ),
    {
        let mut regions: Vec<Region> = Vec::new();
        let mut i: usize = 0;
        while i < self.n
            invariant
                i <= self.n,
                regions@.len() == i,
                forall|j: int|
                    0 <= j < i ==> #[trigger] regions@[j] == region_at(
                        j as nat,
                        self.n_left as nat,
                        self.n_right as nat,
                    ),
            decreases self.n - i,
        {
            let r = self.region_of(i);
            regions.push(r);
            i = i + 1;
        }
        regions
    }
}

/// Where each region lies, for any sizes: the drain is every site from
/// `n_right - 1` on (the whole chain when `n_right` is 0), the channel every
/// site from `n_left` up to but excluding `n_right - 1`, and the source every
/// site before both `n_left` and `n_right - 1`.
pub proof fn lemma_region_boundaries(i: nat, n_left: nat, n_right: nat)
    ensures
        region_at(i, n_left, n_right) == Region::Drain <==> n_right == 0 || i + 1 >= n_right,
        region_at(i, n_left, n_right) == Region::Channel <==> n_left <= i && i + 1 < n_right,
        region_at(i, n_left, n_right) == Region::Source <==> i < n_left && i + 1 < n_right,
{
}

/// Along the chain the regions never go back: source sites come before
/// channel sites, which come before drain sites.
pub proof fn lemma_regions_ordered(i: nat, j: nat, n_left: nat, n_right: nat)
    requires
        i <= j,
    ensures
        region_rank(region_at(i, n_left, n_right)) <= region_rank(region_at(j, n_left, n_right)),
{
}

/// On a well-formed grid with at least one site, the last site is in the
/// drain.
pub proof fn lemma_last_site_is_drain(g: Grid)
    requires
        g.wf(),
        g.n >= 1,
    ensures
        region_at((g.n - 1) as nat, g.n_left as nat, g.n_right as nat) == Region::Drain,
{
}

/// On a well-formed grid whose channel is not swallowed by the contacts
/// (`2 * n_left + 1 <= n`), the source is exactly the first `n_left` sites,
/// the drain exactly the last `n_left + 1` sites, and the channel the
/// `n - 2 * n_left - 1` sites in between.
pub proof fn lemma_contact_layout(g: Grid, i: nat)
    requires
        g.wf(),
        2 * g.n_left + 1 <= g.n,
        i < g.n,
    ensures
        region_at(i, g.n_left as nat, g.n_right as nat) == Region::Source <==> i < g.n_left,
        region_at(i, g.n_left as nat, g.n_right as nat) == Region::Channel <==> g.n_left <= i
            < g.n - g.n_left - 1,
        region_at(i, g.n_left as nat, g.n_right as nat) == Region::Drain <==> g.n - g.n_left - 1
            <= i,
{
}

} // verus!
