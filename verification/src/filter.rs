//! Per-sink verbosity filters.
//!
//! A `Filter` holds a default threshold plus per-target overrides. It is
//! built either from a single level or from a directive string of
//! comma-separated `target=level` pairs with an optional bare default level;
//! malformed pieces never fail the build, they are skipped with a diagnostic
//! and reported to the caller. Evaluation picks the most specific override
//! whose target is a prefix of the metadata's target (the longest match,
//! later directives winning ties) and falls back to the default.

use vstd::prelude::*;
use vstd::string::*;
use crate::ext::{str_eq, write_stderr_line};
use crate::entry::Metadata;
use crate::level::{level_passes, LevelFilter};
use crate::strutil::{is_prefix, str_is_prefix};

verus! {

/// One `target=level` override.
#[derive(Debug)]
pub struct Directive {
    pub target: String,
    pub level: LevelFilter,
}

/// A sink's verbosity configuration.
#[derive(Debug)]
pub struct Filter {
    pub directives: Vec<Directive>,
    pub default_level: LevelFilter,
}

/// The directives as contracts speak of them: target characters and level.
pub open spec fn directives_view(ds: Seq<Directive>) -> Seq<(Seq<char>, LevelFilter)> {
    ds.map_values(|d: Directive| (d.target@, d.level))
}

/// The best override among the first `i` directives for `target`: the
/// longest matching prefix, later directives winning ties. The result pairs
/// the match's length with its level.
pub open spec fn scan_directives(
    ds: Seq<(Seq<char>, LevelFilter)>,
    target: Seq<char>,
    i: int,
) -> Option<(int, LevelFilter)>
    decreases i,
{
    if i <= 0 || i > ds.len() {
        None
    } else {
        let prev = scan_directives(ds, target, i - 1);
        let d = ds[i - 1];
        if is_prefix(d.0, target) {
            match prev {
                None => Some((d.0.len() as int, d.1)),
                Some(p) => if d.0.len() >= p.0 {
                    Some((d.0.len() as int, d.1))
                } else {
                    Some(p)
                },
            }
        } else {
            prev
        }
    }
}

/// The threshold a filter applies to `target`.
pub open spec fn spec_effective_level(f: Filter, target: Seq<char>) -> LevelFilter {
    let ds = directives_view(f.directives@);
    match scan_directives(ds, target, ds.len() as int) {
        Some(p) => p.1,
        None => f.default_level,
    }
}

/// Whether a filter accepts the given call site.
pub open spec fn filter_enabled(f: Filter, m: Metadata) -> bool {
    level_passes(m.level, spec_effective_level(f, m.target@))
}

impl Filter {
    /// A filter with no overrides: everything is judged by `level`.
    pub fn from_level(level: LevelFilter) -> (r: Filter)
        ensures
            r.directives@.len() == 0,
            r.default_level == level,
    {
        Filter { directives: Vec::new(), default_level: level }
    }

    /// Builds a filter from a directive string; see `spec_parse`. The bool
    /// reports whether any piece was malformed (each such piece is skipped
    /// and a diagnostic written).
    pub fn from_directives(s: &str, fallback: LevelFilter) -> (r: (Filter, bool))
        ensures
            directives_view(r.0.directives@) == spec_parse(s@, fallback).directives,
            r.0.default_level == spec_parse(s@, fallback).default_level,
            r.1 == spec_parse(s@, fallback).defect,
    {
        let mut directives: Vec<Directive> = Vec::new();
        let mut default_level = fallback;
        let mut defect = false;
        proof {
            assert(directives_view(directives@) =~= Seq::<(Seq<char>, LevelFilter)>::empty());
        }
        parse_rest(s, &mut directives, &mut default_level, &mut defect);
        (Filter { directives, default_level }, defect)
    }

    /// Whether this filter accepts the call site: the most specific matching
    /// override decides, else the default level.
    pub fn enabled(&self, metadata: &Metadata) -> (r: bool)
        ensures
            r == filter_enabled(*self, *metadata),
    {
        let ghost ds = directives_view(self.directives@);
        let n = self.directives.len();
        let mut best: Option<(usize, LevelFilter)> = None;
        let mut i: usize = 0;
        while i < n
            invariant
                i <= n,
                n == self.directives@.len(),
                ds == directives_view(self.directives@),
                (best is Some) == (scan_directives(ds, metadata.target@, i as int) is Some),
                best matches Some(bp) ==> (scan_directives(ds, metadata.target@, i as int)
                    matches Some(sp) && bp.0 as int == sp.0 && bp.1 == sp.1),
            decreases n - i,
        {
            proof {
                let dv = self.directives@[i as int];
                assert(ds[i as int] == (dv.target@, dv.level));
            }
            let d = &self.directives[i];
            if str_is_prefix(d.target.as_str(), metadata.target) {
                let l = d.target.as_str().unicode_len();
                best = match best {
                    None => Some((l, d.level)),
                    Some(p) => if l >= p.0 {
                        Some((l, d.level))
                    } else {
                        Some(p)
                    },
                };
            }
            i = i + 1;
        }
        let effective = match best {
            Some(p) => p.1,
            None => self.default_level,
        };
        metadata.level.passes(effective)
    }
}

/// What one parse step leaves behind.
pub ghost struct ParseOut {
    pub directives: Seq<(Seq<char>, LevelFilter)>,
    pub default_level: LevelFilter,
    pub defect: bool,
}

/// The lower-case name of each threshold, as the directive grammar takes it.
pub open spec fn level_name(s: Seq<char>) -> Option<LevelFilter> {
    if s == "off"@ {
        Some(LevelFilter::Off)
    } else if s == "error"@ {
        Some(LevelFilter::Error)
    } else if s == "warn"@ {
        Some(LevelFilter::Warn)
    } else if s == "info"@ {
        Some(LevelFilter::Info)
    } else if s == "debug"@ {
        Some(LevelFilter::Debug)
    } else if s == "trace"@ {
        Some(LevelFilter::Trace)
    } else {
        None
    }
}

/// Index of the first occurrence of `c` in `s`, or `s.len()` if absent.
pub open spec fn find_char(s: Seq<char>, c: char) -> int
    decreases s.len(),
{
    if s.len() == 0 {
        0
    } else if s[0] == c {
        0
    } else {
        1 + find_char(s.skip(1), c)
    }
}

/// `find_char` is the first occurrence: in bounds, hits `c` when in range,
/// and nothing before it is `c`.
pub proof fn lemma_find_char(s: Seq<char>, c: char)
    ensures
        0 <= find_char(s, c) <= s.len(),
        find_char(s, c) < s.len() ==> s[find_char(s, c)] == c,
        forall|j: int| 0 <= j < find_char(s, c) ==> s[j] != c,
    decreases s.len(),
{
    if s.len() != 0 && s[0] != c {
        lemma_find_char(s.skip(1), c);
        assert forall|j: int| 0 <= j < find_char(s, c) implies s[j] != c by {
            if j > 0 {
                assert(s[j] == s.skip(1)[j - 1]);
            }
        }
        if find_char(s, c) < s.len() {
            assert(s[find_char(s, c)] == s.skip(1)[find_char(s.skip(1), c)]);
        }
    }
}

/// One piece folded into the parse: empty pieces are skipped, `target=level`
/// adds an override, a bare level name replaces the default, anything else
/// is a defect.
pub open spec fn parse_piece(acc: ParseOut, piece: Seq<char>) -> ParseOut {
    if piece.len() == 0 {
        acc
    } else {
        let e = find_char(piece, '=');
        if e < piece.len() {
            match level_name(piece.skip(e + 1)) {
                Some(l) => ParseOut {
                    directives: acc.directives.push((piece.take(e), l)),
                    ..acc
                },
                None => ParseOut { defect: true, ..acc },
            }
        } else {
            match level_name(piece) {
                Some(l) => ParseOut { default_level: l, ..acc },
                None => ParseOut { defect: true, ..acc },
            }
        }
    }
}

/// The whole directive string folded piece by piece, split on commas.
pub open spec fn parse_from(s: Seq<char>, acc: ParseOut) -> ParseOut
    decreases s.len(),
{
    let e = find_char(s, ',');
    if 0 <= e < s.len() {
        parse_from(s.skip(e + 1), parse_piece(acc, s.take(e)))
    } else {
        parse_piece(acc, s)
    }
}

/// The parse of a directive string starting from no overrides and the
/// fallback default.
pub open spec fn spec_parse(s: Seq<char>, fallback: LevelFilter) -> ParseOut {
    parse_from(
        s,
        ParseOut { directives: Seq::empty(), default_level: fallback, defect: false },
    )
}

/// First occurrence of `c` in `s`, or the length if absent.
fn find_char_in(s: &str, c: char) -> (r: usize)
    ensures
        r as int == find_char(s@, c),
{
    let n = s.unicode_len();
    let mut i: usize = 0;
    while i < n
        invariant
            i <= n,
            n == s@.len(),
            forall|j: int| 0 <= j < i ==> s@[j] != c,
        decreases n - i,
    {
        if s.get_char(i) == c {
            proof {
                lemma_find_char(s@, c);
                if find_char(s@, c) < i {
                    assert(s@[find_char(s@, c)] == c);
                }
                if find_char(s@, c) > i {
                    assert(s@[i as int] != c);
                }
            }
            return i;
        }
        i = i + 1;
    }
    proof {
        lemma_find_char(s@, c);
        if find_char(s@, c) < s@.len() {
            assert(s@[find_char(s@, c)] == c);
        }
    }
    n
}

/// Parses one threshold name, lower case.
fn parse_level_name(s: &str) -> (r: Option<LevelFilter>)
    ensures
        r == level_name(s@),
{
    if str_eq(s, "off") {
        Some(LevelFilter::Off)
    } else if str_eq(s, "error") {
        Some(LevelFilter::Error)
    } else if str_eq(s, "warn") {
        Some(LevelFilter::Warn)
    } else if str_eq(s, "info") {
        Some(LevelFilter::Info)
    } else if str_eq(s, "debug") {
        Some(LevelFilter::Debug)
    } else if str_eq(s, "trace") {
        Some(LevelFilter::Trace)
    } else {
        None
    }
}

/// Folds one piece into the accumulated parse, as `parse_piece` says.
fn parse_chunk(
    piece: &str,
    directives: &mut Vec<Directive>,
    default_level: &mut LevelFilter,
    defect: &mut bool,
)
    ensures
        ({
            let acc = ParseOut {
                directives: directives_view(old(directives)@),
                default_level: *old(default_level),
                defect: *old(defect),
            };
            let out = parse_piece(acc, piece@);
            directives_view(final(directives)@) == out.directives
                && *final(default_level) == out.default_level
                && *final(defect) == out.defect
        }),
{
    let n = piece.unicode_len();
    if n == 0 {
        return;
    }
    let e = find_char_in(piece, '=');
    if e < n {
        let target = piece.substring_char(0, e);
        let name = piece.substring_char(e + 1, n);
        proof {
            assert(target@ =~= piece@.take(e as int));
            assert(name@ =~= piece@.skip(e as int + 1));
        }
        match parse_level_name(name) {
            Some(l) => {
                directives.push(Directive { target: target.to_owned(), level: l });
                proof {
                    assert(directives_view(directives@) =~= directives_view(old(directives)@).push(
                        (piece@.take(e as int), l),
                    ));
                }
            }
            None => {
                write_stderr_line("malformed logging directive piece skipped");
                *defect = true;
            }
        }
    } else {
        match parse_level_name(piece) {
            Some(l) => {
                *default_level = l;
            }
            None => {
                write_stderr_line("malformed logging directive piece skipped");
                *defect = true;
            }
        }
    }
}

/// Folds the whole remaining string, splitting on commas.
fn parse_rest(
    s: &str,
    directives: &mut Vec<Directive>,
    default_level: &mut LevelFilter,
    defect: &mut bool,
)
    ensures
        ({
            let acc = ParseOut {
                directives: directives_view(old(directives)@),
                default_level: *old(default_level),
                defect: *old(defect),
            };
            let out = parse_from(s@, acc);
            directives_view(final(directives)@) == out.directives
                && *final(default_level) == out.default_level
                && *final(defect) == out.defect
        }),
    decreases s@.len(),
{
    proof {
        lemma_find_char(s@, ',');
    }
    let n = s.unicode_len();
    let e = find_char_in(s, ',');
    if e < n {
        let piece = s.substring_char(0, e);
        proof {
            assert(piece@ =~= s@.take(e as int));
        }
        parse_chunk(piece, directives, default_level, defect);
        let rest = s.substring_char(e + 1, n);
        proof {
            assert(rest@ =~= s@.skip(e as int + 1));
        }
        parse_rest(rest, directives, default_level, defect);
    } else {
        parse_chunk(s, directives, default_level, defect);
    }
}

/// The two independently configured sink filters: local printer and remote
/// collector. Replacement is whole-value, so readers always see a
/// consistent pair.
#[derive(Debug)]
pub struct FilterPair {
    pub local_filter: Filter,
    pub remote_filter: Filter,
}

/// The single gate deciding whether an emission is worth materializing:
/// either sink would accept it.
pub open spec fn pair_enabled(p: FilterPair, m: Metadata) -> bool {
    filter_enabled(p.local_filter, m) || filter_enabled(p.remote_filter, m)
}

impl FilterPair {
    pub fn enabled(&self, metadata: &Metadata) -> (r: bool)
        ensures
            r == pair_enabled(*self, *metadata),
    {
        self.local_filter.enabled(metadata) || self.remote_filter.enabled(metadata)
    }
}

} // verus!
