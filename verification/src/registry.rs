//! The global registry: the set of service interfaces the server advertised
//! during the discovery roundtrip, and the exact-version lookup that binds
//! the control service.

use vstd::prelude::*;

use crate::text::str_eq;

verus! {

/// One advertised global: a numeric object identity, an interface name and
/// the advertised version.
pub struct Global {
    pub id: u32,
    pub interface: String,
    pub version: u32,
}

/// Why an exact bind can fail: the name is absent, or it is present with a
/// different advertised version.
#[derive(PartialEq, Eq, Structural, Clone, Copy, Debug)]
pub enum BindError {
    InterfaceNotFound,
    VersionMismatch,
}

/// The first advertised global carrying the given interface name.
pub open spec fn first_match(globals: Seq<Global>, name: Seq<char>) -> Option<Global>
    decreases globals.len(),
{
    if globals.len() == 0 {
        None
    } else if globals[0].interface@ == name {
        Some(globals[0])
    } else {
        first_match(globals.drop_first(), name)
    }
}

/// What binding `name` at exactly `version` yields: the identity of the first
/// matching global if its advertised version is exactly the requested one,
/// and the distinguishing error otherwise.
pub open spec fn bind_result(globals: Seq<Global>, name: Seq<char>, version: u32) -> Result<
    u32,
    BindError,
> {
    match first_match(globals, name) {
        None => Err(BindError::InterfaceNotFound),
        Some(g) => if g.version == version {
            Ok(g.id)
        } else {
            Err(BindError::VersionMismatch)
        },
    }
}

/// The registry of advertised globals, fully populated by the discovery
/// roundtrip before any lookup happens.
pub struct GlobalRegistry {
    pub globals: Vec<Global>,
}

impl GlobalRegistry {
    /// Records the advertisements collected by the discovery roundtrip.
    pub fn new(globals: Vec<Global>) -> (r: GlobalRegistry)
        ensures
            r.globals@ == globals@,
    {
        GlobalRegistry { globals }
    }

    /// Looks `name` up among the advertised globals and requires the
    /// advertised version to equal `version` exactly; fails closed with
    /// `InterfaceNotFound` when the name is absent and `VersionMismatch` when
    /// it is present at any other version.
    pub fn bind_exact(&self, name: &str, version: u32) -> (r: Result<u32, BindError>)
        ensures
            r == bind_result(self.globals@, name@, version),
    {
        let ghost gs: Seq<Global> = self.globals@;
        proof {
            assert(gs.skip(0) =~= gs);
        }
        let mut i: usize = 0;
        while i < self.globals.len()
            invariant
                0 <= i <= self.globals.len(),
                gs == self.globals@,
                forall|j: int| 0 <= j < i ==> #[trigger] gs[j].interface@ != name@,
                first_match(gs, name@) == first_match(gs.skip(i as int), name@),
            decreases self.globals.len() - i,
        {
            let g: &Global = &self.globals[i];
            proof {
                assert(gs.skip(i as int)[0] == gs[i as int]);
            }
            if str_eq(g.interface.as_str(), name) {
                proof {
                    assert(first_match(gs, name@) == Some(gs[i as int]));
                }
                if g.version == version {
                    return Ok(g.id);
                } else {
                    return Err(BindError::VersionMismatch);
                }
            }
            proof {
                assert(gs.skip(i as int).drop_first() =~= gs.skip(i as int + 1));
            }
            i = i + 1;
        }
        proof {
            assert(gs.skip(i as int).len() == 0);
            assert(first_match(gs, name@) is None);
        }
        Err(BindError::InterfaceNotFound)
    }
}

/// Discovery lookups are idempotent: the bound identity is a function of the
/// discovered registry alone, so repeating an exact bind with the same name
/// and version after a successful bind yields the same proxy identity, with
/// no duplicate binding side effects.
pub proof fn lemma_bind_exact_idempotent(
    globals: Seq<Global>,
    name: Seq<char>,
    version: u32,
    r1: Result<u32, BindError>,
    r2: Result<u32, BindError>,
)
    requires
        r1 == bind_result(globals, name, version),
        r2 == bind_result(globals, name, version),
    ensures
        r1 == r2,
        r1 matches Ok(id1) ==> r2 matches Ok(id2) && id1 == id2,
{
}

/// Version binding is exact: when the name is advertised but at a different
/// version, the bind fails with `VersionMismatch` — it never silently
/// succeeds with another version.
pub proof fn lemma_bind_exact_version(globals: Seq<Global>, name: Seq<char>, version: u32)
    requires
        first_match(globals, name) matches Some(g) && g.version != version,
    ensures
        bind_result(globals, name, version) == Err::<u32, BindError>(BindError::VersionMismatch),
{
}

/// A successful bind can only return the identity of an advertised global
/// whose name and version match the request exactly.
pub proof fn lemma_bind_exact_sound(globals: Seq<Global>, name: Seq<char>, version: u32, id: u32)
    requires
        bind_result(globals, name, version) == Ok::<u32, BindError>(id),
    ensures
        exists|i: int|
            0 <= i < globals.len() && (#[trigger] globals[i]).interface@ == name
                && globals[i].version == version && globals[i].id == id,
    decreases globals.len(),
{
    if globals.len() > 0 {
        if globals[0].interface@ == name {
            assert(globals[0].version == version && globals[0].id == id);
        } else {
            lemma_bind_exact_sound(globals.drop_first(), name, version, id);
            let i = choose|i: int|
                0 <= i < globals.drop_first().len() && (#[trigger] globals.drop_first()[i]).interface@
                    == name && globals.drop_first()[i].version == version
                    && globals.drop_first()[i].id == id;
            assert(globals[i + 1] == globals.drop_first()[i]);
        }
    }
}

} // verus!
