//! Locating the `bw` executable. The file-system probes are made by the
//! caller; this decides what a probed path is and which probe wins.

use vstd::prelude::*;
use vstd::string::StringExecFns;

use crate::text::{ascii_lower, ascii_lowercase, chars_eq, chars_of, split, split_chars, views};

verus! {

/// How `bw` is spawned.
#[derive(Debug, Clone)]
pub enum BwExe {
    /// A real executable: spawn directly.
    Direct(String),
    /// A `.cmd`/`.bat` shim (Windows): spawned as an argument to
    /// `cmd.exe`, not as the program itself.
    ViaCmd(String),
}

pub open spec fn exe_path(e: BwExe) -> Seq<char> {
    match e {
        BwExe::Direct(p) => p@,
        BwExe::ViaCmd(p) => p@,
    }
}

impl BwExe {
    pub fn path(&self) -> (p: &str)
        ensures
            p@ == exe_path(*self),
    {
        match self {
            BwExe::Direct(p) => p.as_str(),
            BwExe::ViaCmd(p) => p.as_str(),
        }
    }
}

/// `ext` names `word` in any ASCII case.
pub open spec fn ext_is(ext: Option<Seq<char>>, word: Seq<char>) -> bool {
    match ext {
        Some(e) => ascii_lower(e) == word,
        None => false,
    }
}

/// What a Windows path is as a `bw` executable: an existing `.exe` is
/// spawned directly, an existing `.cmd` or `.bat` through `cmd.exe`;
/// anything else is not one. `extension` is the path's extension, as
/// `Path::extension` gives it.
pub open spec fn classify_windows_spec(path: Seq<char>, is_file: bool, extension: Option<Seq<char>>) -> Option<(bool, Seq<char>)> {
    if !is_file {
        None
    } else if ext_is(extension, "exe"@) {
        Some((true, path))
    } else if ext_is(extension, "cmd"@) || ext_is(extension, "bat"@) {
        Some((false, path))
    } else {
        None
    }
}

/// `Some((direct, path))` for a `BwExe`.
pub open spec fn exe_shape(e: Option<BwExe>) -> Option<(bool, Seq<char>)> {
    match e {
        Some(BwExe::Direct(p)) => Some((true, p@)),
        Some(BwExe::ViaCmd(p)) => Some((false, p@)),
        None => None,
    }
}

fn ext_matches(ext: &Vec<char>, word: &str) -> (b: bool)
    ensures
        b == (ext@ == word@),
{
    chars_eq(ext, &chars_of(word))
}

/// Classifies a Windows path for spawning `bw`.
pub fn classify_windows(path: &str, is_file: bool, extension: Option<&str>) -> (r: Option<BwExe>)
    ensures
        exe_shape(r) == classify_windows_spec(
            path@,
            is_file,
            match extension {
                Some(e) => Some(e@),
                None => None,
            },
        ),
{
    if !is_file {
        return None;
    }
    let ext = match extension {
        Some(e) => ascii_lowercase(&chars_of(e)),
        None => return None,
    };
    if ext_matches(&ext, "exe") {
        Some(BwExe::Direct(String::from_str(path)))
    } else if ext_matches(&ext, "cmd") || ext_matches(&ext, "bat") {
        Some(BwExe::ViaCmd(String::from_str(path)))
    } else {
        None
    }
}

/// Classifies a Unix path for spawning `bw`: an existing file with any
/// execute bit set in `mode`.
pub fn classify_unix(path: &str, is_file: bool, mode: u32) -> (r: Option<BwExe>)
    ensures
        exe_shape(r) == (if is_file && (mode & 0o111u32) != 0 {
            Some((true, path@))
        } else {
            None
        }),
{
    if !is_file || mode & 0o111 == 0 {
        return None;
    }
    Some(BwExe::Direct(String::from_str(path)))
}

/// The extensions a Windows `PATH` search tries, from `PATHEXT` (its
/// usual value when unset), empty entries left out.
pub open spec fn path_extensions_spec(pathext: Option<Seq<char>>) -> Seq<Seq<char>> {
    let text = match pathext {
        Some(p) => p,
        None => ".COM;.EXE;.BAT;.CMD"@,
    };
    nonempty(split(text, ';'))
}

pub open spec fn nonempty(parts: Seq<Seq<char>>) -> Seq<Seq<char>>
    decreases parts.len(),
{
    if parts.len() == 0 {
        Seq::empty()
    } else if parts.last().len() == 0 {
        nonempty(parts.drop_last())
    } else {
        nonempty(parts.drop_last()).push(parts.last())
    }
}

pub fn path_extensions(pathext: Option<&str>) -> (r: Vec<Vec<char>>)
    ensures
        views(r@) == path_extensions_spec(
            match pathext {
                Some(p) => Some(p@),
                None => None,
            },
        ),
{
    let text = match pathext {
        Some(p) => chars_of(p),
        None => chars_of(".COM;.EXE;.BAT;.CMD"),
    };
    let parts = split_chars(&text, ';');
    let ghost ps = views(parts@);
    let mut out: Vec<Vec<char>> = Vec::new();
    let mut i: usize = 0;
    while i < parts.len()
        invariant
            i <= parts.len(),
            ps == views(parts@),
            views(out@) == nonempty(ps.take(i as int)),
        decreases parts.len() - i,
    {
        proof {
            assert(ps.take(i + 1).drop_last() =~= ps.take(i as int));
            assert(ps.take(i + 1).last() == parts@[i as int]@);
        }
        if parts[i].len() > 0 {
            let ghost before = views(out@);
            let p = crate::text::slice_of(&parts[i], 0, parts[i].len());
            let ghost pv = p@;
            assert(pv =~= parts@[i as int]@);
            out.push(p);
            assert(views(out@) =~= before.push(pv));
        }
        i += 1;
    }
    assert(ps.take(parts.len() as int) =~= ps);
    out
}

/// The first located executable in `known`, if any.
pub open spec fn first_found(known: Seq<Option<BwExe>>) -> Option<BwExe>
    decreases known.len(),
{
    if known.len() == 0 {
        None
    } else if known[0] is Some {
        known[0]
    } else {
        first_found(known.drop_first())
    }
}

/// Which probe locates `bw`: the configured path when one is set (and
/// nothing else then), otherwise a `PATH` search, then the known install
/// locations in order.
pub open spec fn resolve_spec(
    bw_path: Seq<char>,
    configured: Option<BwExe>,
    on_path: Option<BwExe>,
    known: Seq<Option<BwExe>>,
) -> Result<BwExe, Seq<char>> {
    if bw_path.len() > 0 {
        match configured {
            Some(e) => Ok(e),
            None => Err("configured bw path '"@ + bw_path + "' does not exist"@),
        }
    } else if on_path is Some {
        Ok(on_path->0)
    } else {
        match first_found(known) {
            Some(e) => Ok(e),
            None => Err(
                "bw executable not found on PATH or in common install locations; set the path explicitly in Settings"@,
            ),
        }
    }
}

/// Picks the `bw` executable. `bw_path` is the configured override (empty
/// means autodetect); `configured`, `on_path` and `known_locations` are
/// what probing that path, the `PATH` search and each known install
/// location found.
pub fn resolve(
    bw_path: &str,
    configured: Option<BwExe>,
    on_path: Option<BwExe>,
    known_locations: Vec<Option<BwExe>>,
) -> (r: Result<BwExe, String>)
    ensures
        match resolve_spec(bw_path@, configured, on_path, known_locations@) {
            Ok(e) => r == Ok::<BwExe, String>(e),
            Err(m) => r matches Err(s) && s@ == m,
        },
{
    if !bw_path.is_empty() {
        return match configured {
            Some(e) => Ok(e),
            None => {
                let mut s = String::from_str("configured bw path '");
                s.append(bw_path);
                s.append("' does not exist");
                Err(s)
            },
        };
    }
    if let Some(e) = on_path {
        return Ok(e);
    }
    let mut known = known_locations;
    let ghost all = known@;
    while known.len() > 0
        invariant
            first_found(known@) == first_found(all),
            all == known_locations@,
            bw_path@.len() == 0,
            on_path is None,
        decreases known.len(),
    {
        let ghost before = known@;
        let candidate = known.remove(0);
        assert(known@ =~= before.drop_first());
        assert(candidate == before[0]);
        if let Some(e) = candidate {
            assert(first_found(before) == Some(e));
            return Ok(e);
        }
    }
    Err(
        String::from_str(
            "bw executable not found on PATH or in common install locations; set the path explicitly in Settings",
        ),
    )
}

} // verus!
