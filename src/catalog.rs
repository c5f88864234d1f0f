//! The catalog of bodies: the Sun and the eight planets with their orbital
//! elements, from the NASA planetary fact sheet.
//!
//! Index 0 is the star and indices 1 to 8 the planets from the innermost
//! outward; the digit keys select by this order. Elements are stored in
//! fixed-point units so that the catalog's facts can be proved.

use vstd::prelude::*;
use crate::bodies::BodyFlags;
use vstd::arithmetic::div_mod::lemma_mod_add_multiples_vanish;

verus! {

/// Number of bodies in the catalog.
pub const CATALOG_SIZE: usize = 9;

/// Nanodays in a centiday.
pub const NANODAYS_PER_CENTIDAY: u64 = 10_000_000;

/// Longest orbital period whose length in nanodays fits in a `u64`.
pub const MAX_PERIOD_CENTIDAYS: u64 = 1_844_674_407_370;

/// A body of the catalog and its fixed orbital elements.
#[derive(Debug, Clone, Copy, PartialEq, Eq)]
pub struct CelestialBody {
    pub name: &'static str,
    /// Color as 8-bit red, green, blue.
    pub color: [u8; 3],
    /// Equatorial radius, in tenths of a kilometre.
    pub radius_decikm: u64,
    /// Orbit radius (semi-major axis), in thousandths of an AU.
    pub semi_major_axis_milli_au: u64,
    /// Orbital period, in hundredths of a day.
    pub period_centidays: u64,
    /// Orbital inclination, in hundredths of a degree.
    pub inclination_centideg: u64,
    /// Orbital angle at the epoch, in milliradians.
    pub start_angle_millirad: u64,
    pub has_rings: bool,
    /// The central star: it sits at the origin and its elements are unused.
    pub is_star: bool,
    /// Image file of its surface, if any.
    pub texture_file: Option<&'static str>,
}

impl CelestialBody {
    /// A body that orbits has a positive period, short enough to measure in
    /// nanodays.
    pub open spec fn wf(&self) -> bool {
        !self.is_star ==> 0 < self.period_centidays <= MAX_PERIOD_CENTIDAYS
    }

    /// The orbital period in nanodays.
    pub open spec fn spec_period_nanodays(&self) -> int {
        self.period_centidays * NANODAYS_PER_CENTIDAY
    }

    /// Where the body is on its orbit at `t_nanodays` after the epoch: `None`
    /// for the star, which sits at the origin whatever the time; otherwise the
    /// time already spent in the current revolution.
    pub open spec fn spec_orbit_phase(&self, t_nanodays: u64) -> Option<u64> {
        if self.is_star {
            None
        } else {
            Some((t_nanodays as int % self.spec_period_nanodays()) as u64)
        }
    }

    /// Whether the body is well formed: a star, or a body whose period is
    /// positive and fits in nanodays.
    pub fn is_valid(&self) -> (r: bool)
        ensures
            r == self.wf(),
    {
        self.is_star || (0 < self.period_centidays && self.period_centidays <= MAX_PERIOD_CENTIDAYS)
    }

    /// The orbital period in nanodays.
    pub fn period_nanodays(&self) -> (r: u64)
        requires
            self.wf(),
            !self.is_star,
        ensures
            r == self.spec_period_nanodays(),
            r > 0,
    {
        self.period_centidays * NANODAYS_PER_CENTIDAY
    }

    /// Where the body is on its orbit at `t_nanodays`: `None` for the star,
    /// else the time since the start of the current revolution, in
    /// nanodays. The angle swept since the epoch position is that time over
    /// the period, in turns.
    pub fn orbit_phase(&self, t_nanodays: u64) -> (r: Option<u64>)
        requires
            self.wf(),
        ensures
            r == self.spec_orbit_phase(t_nanodays),
            r matches Some(p) ==> p < self.spec_period_nanodays(),
    {
        if self.is_star {
            None
        } else {
            Some(t_nanodays % self.period_nanodays())
        }
    }

    pub open spec fn spec_flags(&self) -> BodyFlags {
        BodyFlags { is_star: self.is_star, has_rings: self.has_rings }
    }

    /// Its role flags.
    pub fn flags(&self) -> (r: BodyFlags)
        ensures
            r == self.spec_flags(),
    {
        BodyFlags { is_star: self.is_star, has_rings: self.has_rings }
    }
}

/// The catalog's facts: one star, first; then planets with positive periods,
/// ordered outward; Saturn alone ringed; every body textured.
pub open spec fn is_solar_catalog(bodies: Seq<CelestialBody>) -> bool {
    &&& bodies.len() == CATALOG_SIZE
    &&& bodies[0].is_star
    &&& forall|i: int| 1 <= i < CATALOG_SIZE ==> !(#[trigger] bodies[i]).is_star
    &&& forall|i: int| 0 <= i < CATALOG_SIZE ==> (#[trigger] bodies[i]).period_centidays > 0
    &&& forall|i: int| 0 <= i < CATALOG_SIZE ==> (#[trigger] bodies[i]).wf()
    &&& forall|i: int, j: int|
        1 <= i < j < CATALOG_SIZE ==> (#[trigger] bodies[i]).semi_major_axis_milli_au
            < (#[trigger] bodies[j]).semi_major_axis_milli_au
    &&& forall|i: int| 0 <= i < CATALOG_SIZE ==> ((#[trigger] bodies[i]).has_rings <==> i == 6)
    &&& forall|i: int| 0 <= i < CATALOG_SIZE ==> (#[trigger] bodies[i]).texture_file is Some
}

/// The catalog's names, in order.
pub open spec fn has_catalog_names(bodies: Seq<CelestialBody>) -> bool {
    &&& bodies.len() == CATALOG_SIZE
    &&& bodies[0].name@ == "Sun"@
    &&& bodies[1].name@ == "Mercury"@
    &&& bodies[2].name@ == "Venus"@
    &&& bodies[3].name@ == "Earth"@
    &&& bodies[4].name@ == "Mars"@
    &&& bodies[5].name@ == "Jupiter"@
    &&& bodies[6].name@ == "Saturn"@
    &&& bodies[7].name@ == "Uranus"@
    &&& bodies[8].name@ == "Neptune"@
}

/// A planet entry.
fn planet(
    name: &'static str,
    color: [u8; 3],
    radius_decikm: u64,
    semi_major_axis_milli_au: u64,
    period_centidays: u64,
    inclination_centideg: u64,
    start_angle_millirad: u64,
    has_rings: bool,
    texture_file: &'static str,
) -> (r: CelestialBody)
    ensures
        r == (CelestialBody {
            name,
            color,
            radius_decikm,
            semi_major_axis_milli_au,
            period_centidays,
            inclination_centideg,
            start_angle_millirad,
            has_rings,
            is_star: false,
            texture_file: Some(texture_file),
        }),
{
    CelestialBody {
        name,
        color,
        radius_decikm,
        semi_major_axis_milli_au,
        period_centidays,
        inclination_centideg,
        start_angle_millirad,
        has_rings,
        is_star: false,
        texture_file: Some(texture_file),
    }
}

/// The Sun and the eight planets.
pub fn create_solar_system() -> (r: Vec<CelestialBody>)
    ensures
        is_solar_catalog(r@),
        has_catalog_names(r@),
{
    let sun = CelestialBody {
        name: "Sun",
        color: [255, 204, 51],
        radius_decikm: 6_957_000,
        semi_major_axis_milli_au: 0,
        period_centidays: 100,
        inclination_centideg: 0,
        start_angle_millirad: 0,
        has_rings: false,
        is_star: true,
        texture_file: Some("sun.jpg"),
    };
    let r = vec![
        sun,
        planet("Mercury", [181, 181, 181], 24_397, 387, 8_797, 700, 0, false, "mercury.jpg"),
        planet("Venus", [232, 205, 160], 60_518, 723, 22_470, 339, 900, false, "venus.jpg"),
        planet("Earth", [79, 163, 224], 63_710, 1_000, 36_525, 0, 1_750, false, "earth.jpg"),
        planet("Mars", [193, 68, 14], 33_895, 1_524, 68_700, 185, 3_200, false, "mars.jpg"),
        planet("Jupiter", [200, 139, 58], 699_110, 5_203, 433_259, 131, 4_800, false, "jupiter.jpg"),
        planet("Saturn", [228, 209, 145], 582_320, 9_537, 1_075_922, 249, 5_500, true, "saturn.jpg"),
        planet("Uranus", [125, 232, 232], 253_620, 19_191, 3_068_850, 77, 2_100, false, "uranus.jpg"),
        planet("Neptune", [63, 84, 186], 246_220, 30_069, 6_018_200, 177, 400, false, "neptune.jpg"),
    ];
    assert(r@.len() == CATALOG_SIZE);
    r
}

/// The role flags of each body, in order.
pub fn catalog_flags(bodies: &[CelestialBody]) -> (r: Vec<BodyFlags>)
    ensures
        r@.len() == bodies@.len(),
        forall|i: int| 0 <= i < r@.len() ==> r@[i] == (#[trigger] bodies@[i]).spec_flags(),
{
    let mut r: Vec<BodyFlags> = Vec::new();
    let mut i: usize = 0;
    while i < bodies.len()
        invariant
            i <= bodies@.len(),
            r@.len() == i,
            forall|k: int| 0 <= k < i ==> r@[k] == (#[trigger] bodies@[k]).spec_flags(),
        decreases bodies@.len() - i,
    {
        r.push(bodies[i].flags());
        i = i + 1;
    }
    r
}

/// The star is at the origin at every time.
pub proof fn lemma_star_stays_at_origin(b: CelestialBody, t_nanodays: u64)
    requires
        b.is_star,
    ensures
        b.spec_orbit_phase(t_nanodays) is None,
{
}

/// Orbits are closed: one full period later, a body is at the same point of
/// its orbit.
pub proof fn lemma_orbit_closes(b: CelestialBody, t_nanodays: u64)
    requires
        b.wf(),
        !b.is_star,
        t_nanodays + b.spec_period_nanodays() <= u64::MAX,
    ensures
        b.spec_orbit_phase((t_nanodays + b.spec_period_nanodays()) as u64) == b.spec_orbit_phase(
            t_nanodays,
        ),
{
    lemma_mod_add_multiples_vanish(t_nanodays as int, b.spec_period_nanodays());
}

} // verus!
