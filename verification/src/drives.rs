//! Choosing the drives to show from the volumes the system has mounted.

use vstd::prelude::*;

verus! {

/// A mounted volume together with the result of probing it.
pub struct MountProbe {
    /// Where the volume is mounted.
    pub path: String,
    /// Whether the volume's metadata could be read.
    pub accessible: bool,
}

/// A `MountProbe` as a mathematical value.
pub struct MountProbeView {
    pub path: Seq<char>,
    pub accessible: bool,
}

impl View for MountProbe {
    type V = MountProbeView;

    open spec fn view(&self) -> MountProbeView {
        MountProbeView { path: self.path@, accessible: self.accessible }
    }
}

/// The top of a mounted volume that this process can reach.
pub struct DriveRoot {
    /// Where the volume is mounted.
    pub path: String,
}

impl View for DriveRoot {
    type V = Seq<char>;

    open spec fn view(&self) -> Seq<char> {
        self.path@
    }
}

/// The mathematical values of a run of probes, in order.
pub open spec fn probes_view(probes: Seq<MountProbe>) -> Seq<MountProbeView> {
    Seq::new(probes.len(), |i: int| probes[i]@)
}

/// The paths of a run of drive roots, in order.
pub open spec fn roots_view(roots: Seq<DriveRoot>) -> Seq<Seq<char>> {
    Seq::new(roots.len(), |i: int| roots[i]@)
}

/// The mount points whose probe succeeded, in the order of the probes.
pub open spec fn accessible_roots(probes: Seq<MountProbeView>) -> Seq<Seq<char>> {
    probes.filter(|p: MountProbeView| p.accessible).map_values(|p: MountProbeView| p.path)
}

/// Adding one probe at the end adds its path at the end if the probe
/// succeeded, and nothing otherwise.
proof fn lemma_accessible_roots_push(probes: Seq<MountProbeView>, probe: MountProbeView)
    ensures
        accessible_roots(probes.push(probe)) == if probe.accessible {
            accessible_roots(probes).push(probe.path)
        } else {
            accessible_roots(probes)
        },
{
    let pred = |p: MountProbeView| p.accessible;
    let longer = probes.push(probe);
    assert(longer.drop_last() =~= probes);
    assert(longer.filter(pred) == if probe.accessible {
        probes.filter(pred).push(probe)
    } else {
        probes.filter(pred)
    }) by {
        reveal(Seq::filter);
    }
    if probe.accessible {
        assert(accessible_roots(longer) =~= accessible_roots(probes).push(probe.path));
    }
}

/// Whether some probe of the mount point `path` succeeded.
pub open spec fn has_successful_probe(probes: Seq<MountProbeView>, path: Seq<char>) -> bool {
    exists|i: int| 0 <= i < probes.len() && (#[trigger] probes[i]).accessible && probes[i].path == path
}

/// Every path among the accessible roots comes from a probe that succeeded.
pub proof fn lemma_roots_come_from_successful_probes(probes: Seq<MountProbeView>, j: int)
    requires
        0 <= j < accessible_roots(probes).len(),
    ensures
        has_successful_probe(probes, accessible_roots(probes)[j]),
    decreases probes.len(),
{
    if probes.len() > 0 {
        let earlier = probes.drop_last();
        let probe = probes.last();
        assert(earlier.push(probe) =~= probes);
        lemma_accessible_roots_push(earlier, probe);
        if j < accessible_roots(earlier).len() {
            lemma_roots_come_from_successful_probes(earlier, j);
            let i = choose|i: int|
                0 <= i < earlier.len() && (#[trigger] earlier[i]).accessible && earlier[i].path
                    == accessible_roots(earlier)[j];
            assert(probes[i] == earlier[i]);
        } else {
            assert(probes[probes.len() - 1] == probe);
        }
    } else {
        assert(probes.filter(|p: MountProbeView| p.accessible).len() == 0) by {
            reveal(Seq::filter);
        }
    }
}

/// A volume is never shown when every probe of its mount point failed.
pub proof fn lemma_failed_probe_is_excluded(probes: Seq<MountProbeView>, path: Seq<char>)
    requires
        !has_successful_probe(probes, path),
    ensures
        !accessible_roots(probes).contains(path),
{
    if accessible_roots(probes).contains(path) {
        let j = choose|j: int|
            0 <= j < accessible_roots(probes).len() && accessible_roots(probes)[j] == path;
        lemma_roots_come_from_successful_probes(probes, j);
    }
}

/// Picks the drives to show: the mount points whose probe succeeded, in
/// the order in which the system reported them. A volume whose probe failed
/// is left out.
pub fn enumerate(probes: &Vec<MountProbe>) -> (roots: Vec<DriveRoot>)
    ensures
        roots_view(roots@) == accessible_roots(probes_view(probes@)),
        forall|j: int|
            0 <= j < roots.len() ==> has_successful_probe(
                probes_view(probes@),
                (#[trigger] roots[j])@,
            ),
{
    let mut roots: Vec<DriveRoot> = Vec::new();
    let mut i: usize = 0;
    assert(probes_view(probes@).take(0) =~= Seq::empty());
    assert(accessible_roots(Seq::empty()) =~= Seq::empty()) by {
        reveal(Seq::filter);
    }
    assert(roots_view(roots@) =~= Seq::empty());
    while i < probes.len()
        invariant
            i <= probes.len(),
            roots_view(roots@) == accessible_roots(probes_view(probes@).take(i as int)),
        decreases probes.len() - i,
    {
        let ghost before = roots_view(roots@);
        proof {
            let all = probes_view(probes@);
            assert(all.take(i as int + 1) =~= all.take(i as int).push(all[i as int]));
            lemma_accessible_roots_push(all.take(i as int), all[i as int]);
        }
        if probes[i].accessible {
            roots.push(DriveRoot { path: probes[i].path.clone() });
            assert(roots_view(roots@) =~= before.push(probes[i as int].path@));
        }
        i += 1;
    }
    assert(probes_view(probes@).take(i as int) =~= probes_view(probes@));
    assert forall|j: int| 0 <= j < roots.len() implies has_successful_probe(
        probes_view(probes@),
        (#[trigger] roots[j])@,
    ) by {
        lemma_roots_come_from_successful_probes(probes_view(probes@), j);
        assert(roots_view(roots@)[j] == roots[j]@);
    }
    roots
}

/// The text that `String::from_utf16_lossy` makes of `units`: their UTF-16
/// decoding, with the replacement character wherever they are ill-formed.
pub uninterp spec fn utf16_lossy_text(units: Seq<u16>) -> Seq<char>;

/// Calls `String::from_utf16_lossy`. The contract claims only that the text
/// is a function of the units; the decoding itself was not proved here.
#[verifier::external_body]
fn decode_utf16_lossy(units: &[u16]) -> (text: String)
    ensures
        text@ == utf16_lossy_text(units@),
{
    String::from_utf16_lossy(units)
}

/// `text` without the NUL characters at its end.
pub open spec fn without_trailing_nuls(text: Seq<char>) -> Seq<char>
    decreases text.len(),
{
    if text.len() > 0 && text.last() == '\0' {
        without_trailing_nuls(text.drop_last())
    } else {
        text
    }
}

/// Takes the NUL characters off the end of `text`.
pub fn trim_trailing_nuls(text: &str) -> (trimmed: String)
    ensures
        trimmed@ == without_trailing_nuls(text@),
{
    let mut n: usize = text.unicode_len();
    assert(text@.subrange(0, n as int) =~= text@);
    loop
        invariant
            n <= text@.len(),
            without_trailing_nuls(text@) == without_trailing_nuls(text@.subrange(0, n as int)),
        ensures
            n <= text@.len(),
            without_trailing_nuls(text@) == text@.subrange(0, n as int),
        decreases n,
    {
        if n == 0 {
            break ;
        }
        let last: char = text.get_char(n - 1);
        if last != '\0' {
            break ;
        }
        assert(text@.subrange(0, n as int).drop_last() =~= text@.subrange(0, n as int - 1));
        n -= 1;
    }
    String::from_str(text.substring_char(0, n))
}

/// How many drive strings a buffer holds: one for every run of four units
/// that begins before `length` and lies within the `available` units.
pub open spec fn drive_string_count(length: int, available: int) -> int {
    let wanted = (length + 3) / 4;
    let fitting = available / 4;
    if wanted <= fitting {
        wanted
    } else {
        fitting
    }
}

/// The `k`-th drive string of `buffer`: its `k`-th run of four units,
/// decoded, without the NUL characters that end it.
pub open spec fn drive_string_at(buffer: Seq<u16>, k: int) -> Seq<char> {
    without_trailing_nuls(utf16_lossy_text(buffer.subrange(4 * k, 4 * k + 4)))
}

/// Reads the drive strings out of the buffer that Windows fills with the
/// logical drives: `length` units of it are in use, and every drive takes
/// four of them, a letter, a colon, a backslash and a NUL.
pub fn logical_drive_strings(buffer: &[u16], length: usize) -> (drives: Vec<String>)
    ensures
        drives.len() == drive_string_count(length as int, buffer@.len() as int),
        forall|k: int| 0 <= k < drives.len() ==> (#[trigger] drives[k])@ == drive_string_at(buffer@, k),
{
    let mut drives: Vec<String> = Vec::new();
    let mut i: usize = 0;
    let available: usize = buffer.len();
    while i < length && available >= 4 && i <= available - 4
        invariant
            available == buffer@.len(),
            i == 4 * drives.len(),
            i <= available,
            drives.len() <= drive_string_count(length as int, available as int),
            forall|k: int| 0 <= k < drives.len() ==> (#[trigger] drives[k])@ == drive_string_at(buffer@, k),
        decreases available - i,
    {
        let units = vstd::slice::slice_subrange(buffer, i, i + 4);
        let decoded = decode_utf16_lossy(units);
        drives.push(trim_trailing_nuls(decoded.as_str()));
        i += 4;
    }
    drives
}

} // verus!
