//! Post-processing of the generated libavif bindings: the anonymous newtypes
//! that bindgen emits for the CICP enums are renamed after the header's
//! typedefs, so that no `_bindgen_ty_*` identifier remains.

use vstd::prelude::*;

use crate::text::{
    chars_of, contains, find_from, find_in, lemma_find_from_bounds, match_at, push_all, replace_all,
    push_str, replace_in, same_chars, slice_of, split_once, starts_with, string_of,
};

verus! {

/// Why the bindings could not be tidied, over plain character sequences.
pub enum TidyFailure {
    /// The anonymous newtype with this number was not in the bindings.
    MissingNewtype(Seq<char>),
    /// The typedef alias of this CICP type was not in the bindings.
    MissingAlias(Seq<char>),
    /// Some `_bindgen_ty_` identifier is still present after tidying.
    LeftoverAnonymous,
}

/// Why the bindings could not be tidied.
#[derive(Debug, Clone, PartialEq, Eq)]
pub enum TidyError {
    /// The anonymous newtype with this number was not in the bindings.
    MissingNewtype(String),
    /// The typedef alias of this CICP type was not in the bindings.
    MissingAlias(String),
    /// Some `_bindgen_ty_` identifier is still present after tidying.
    LeftoverAnonymous,
}

impl View for TidyError {
    type V = TidyFailure;

    open spec fn view(&self) -> TidyFailure {
        match self {
            TidyError::MissingNewtype(n) => TidyFailure::MissingNewtype(n@),
            TidyError::MissingAlias(t) => TidyFailure::MissingAlias(t@),
            TidyError::LeftoverAnonymous => TidyFailure::LeftoverAnonymous,
        }
    }
}

impl TidyFailure {
    /// The text that describes this failure.
    pub open spec fn message(self) -> Seq<char> {
        match self {
            TidyFailure::MissingNewtype(num) => "anonymous enum _bindgen_ty_"@ + num
                + " not found in the generated bindings"@,
            TidyFailure::MissingAlias(ty) => "no typedef alias found for "@ + ty
                + " in the generated bindings"@,
            TidyFailure::LeftoverAnonymous =>
                "generated bindings still contain _bindgen_ty_ identifiers; tidy_cicp_enums needs updating for the new libavif header"@,
        }
    }
}

impl TidyError {
    /// Describes this failure in words.
    pub fn message(&self) -> (s: String)
        ensures
            s@ == self@.message(),
    {
        let mut v: Vec<char> = Vec::new();
        match self {
            TidyError::MissingNewtype(num) => {
                push_str(&mut v, "anonymous enum _bindgen_ty_");
                push_str(&mut v, num.as_str());
                push_str(&mut v, " not found in the generated bindings");
            },
            TidyError::MissingAlias(ty) => {
                push_str(&mut v, "no typedef alias found for ");
                push_str(&mut v, ty.as_str());
                push_str(&mut v, " in the generated bindings");
            },
            TidyError::LeftoverAnonymous => {
                push_str(
                    &mut v,
                    "generated bindings still contain _bindgen_ty_ identifiers; tidy_cicp_enums needs updating for the new libavif header",
                );
            },
        }
        string_of(v.as_slice())
    }
}

/// The number of CICP types.
pub const CICP_COUNT: usize = 3;

/// The constant-name prefix of the `k`-th CICP type.
pub open spec fn cicp_prefix(k: int) -> Seq<char> {
    if k == 0 {
        "AVIF_COLOR_PRIMARIES_"@
    } else if k == 1 {
        "AVIF_TRANSFER_CHARACTERISTICS_"@
    } else {
        "AVIF_MATRIX_COEFFICIENTS_"@
    }
}

/// The typedef name of the `k`-th CICP type.
pub open spec fn cicp_type(k: int) -> Seq<char> {
    if k == 0 {
        "avifColorPrimaries"@
    } else if k == 1 {
        "avifTransferCharacteristics"@
    } else {
        "avifMatrixCoefficients"@
    }
}

/// The `k`-th entry of the CICP table: a constant-name prefix and the
/// typedef that constants with that prefix belong to.
pub fn cicp_entry(k: usize) -> (r: (&'static str, &'static str))
    requires
        k < CICP_COUNT,
    ensures
        r.0@ == cicp_prefix(k as int),
        r.1@ == cicp_type(k as int),
{
    if k == 0 {
        ("AVIF_COLOR_PRIMARIES_", "avifColorPrimaries")
    } else if k == 1 {
        ("AVIF_TRANSFER_CHARACTERISTICS_", "avifTransferCharacteristics")
    } else {
        ("AVIF_MATRIX_COEFFICIENTS_", "avifMatrixCoefficients")
    }
}

/// The typedef of the first CICP table entry whose prefix starts `name`, at
/// or after entry `k`.
pub open spec fn cicp_type_from(name: Seq<char>, k: int) -> Option<Seq<char>>
    decreases CICP_COUNT - k,
{
    if k < 0 || k >= CICP_COUNT {
        None
    } else if starts_with(name, cicp_prefix(k)) {
        Some(cicp_type(k))
    } else {
        cicp_type_from(name, k + 1)
    }
}

/// The typedef of the first CICP table entry whose prefix starts `name`.
pub open spec fn cicp_type_of(name: Seq<char>) -> Option<Seq<char>> {
    cicp_type_from(name, 0)
}

/// The constant's name and the anonymous newtype's number in a line of the
/// form `pub const NAME: _bindgen_ty_NUM ...`, the number ending at the
/// first space after it.
pub open spec fn const_line_parts(line: Seq<char>) -> Option<(Seq<char>, Seq<char>)> {
    if starts_with(line, "pub const "@) {
        match split_once(line.skip("pub const "@.len() as int), ": _bindgen_ty_"@) {
            Some((name, rest)) => match split_once(rest, " "@) {
                Some((num, _)) => Some((name, num)),
                None => None,
            },
            None => None,
        }
    } else {
        None
    }
}

/// Some pair already recorded has the number `num`.
pub open spec fn has_num(nums: Seq<(Seq<char>, Seq<char>)>, num: Seq<char>) -> bool {
    exists|i: int| 0 <= i < nums.len() && #[trigger] nums[i].0 == num
}

/// The recorded (number, typedef) pairs after reading `line`: a constant of
/// a CICP type records its newtype's number once, with the typedef.
pub open spec fn note_line(nums: Seq<(Seq<char>, Seq<char>)>, line: Seq<char>) -> Seq<
    (Seq<char>, Seq<char>),
> {
    match const_line_parts(line) {
        Some((name, num)) => match cicp_type_of(name) {
            Some(ty) => if has_num(nums, num) {
                nums
            } else {
                nums.push((num, ty))
            },
            None => nums,
        },
        None => nums,
    }
}

/// The pairs recorded after reading the `'\n'`-separated lines of
/// `s[from..]`, in order. A line ending `\r` that `str::lines` would drop
/// never takes part in a match, so it does not change the outcome.
pub open spec fn collect_from(s: Seq<char>, from: int, nums: Seq<(Seq<char>, Seq<char>)>) -> Seq<
    (Seq<char>, Seq<char>),
>
    decreases s.len() + 1 - from,
{
    if from < 0 || from > s.len() {
        nums
    } else {
        match find_from(s, "\n"@, from) {
            Some(k) => {
                proof {
                    lemma_find_from_bounds(s, "\n"@, from);
                }
                collect_from(s, k + 1, note_line(nums, s.subrange(from, k)))
            },
            None => note_line(nums, s.subrange(from, s.len() as int)),
        }
    }
}

/// The (number, typedef) pairs that the bindings `s` call for, in the order
/// of their first constant.
pub open spec fn collect_nums(s: Seq<char>) -> Seq<(Seq<char>, Seq<char>)> {
    collect_from(s, 0, Seq::empty())
}

/// No two recorded pairs share a number, and each pair's typedef is one of
/// the CICP typedefs.
pub open spec fn well_recorded(nums: Seq<(Seq<char>, Seq<char>)>) -> bool {
    &&& forall|i: int, j: int|
        0 <= i < j < nums.len() ==> #[trigger] nums[i].0 != #[trigger] nums[j].0
    &&& forall|i: int|
        0 <= i < nums.len() ==> exists|k: int| 0 <= k < CICP_COUNT && #[trigger] nums[i].1 == cicp_type(k)
}

/// A typedef found for a name is one of the CICP typedefs.
proof fn lemma_cicp_type_from(name: Seq<char>, k: int)
    ensures
        cicp_type_from(name, k) matches Some(ty) ==> exists|j: int|
            0 <= j < CICP_COUNT && ty == #[trigger] cicp_type(j),
    decreases CICP_COUNT - k,
{
    if k < 0 || k >= CICP_COUNT {
    } else if starts_with(name, cicp_prefix(k)) {
        assert(cicp_type(k) == cicp_type(k));
    } else {
        lemma_cicp_type_from(name, k + 1);
    }
}

/// Reading a line keeps the recorded pairs well formed.
proof fn lemma_note_line(nums: Seq<(Seq<char>, Seq<char>)>, line: Seq<char>)
    requires
        well_recorded(nums),
    ensures
        well_recorded(note_line(nums, line)),
{
    if let Some((name, num)) = const_line_parts(line) {
        lemma_cicp_type_from(name, 0);
        if let Some(ty) = cicp_type_of(name) {
            if !has_num(nums, num) {
                let next = nums.push((num, ty));
                assert forall|i: int, j: int| 0 <= i < j < next.len() implies #[trigger] next[i].0
                    != #[trigger] next[j].0 by {
                    if j == nums.len() {
                        assert(nums[i].0 == next[i].0);
                    } else {
                        assert(nums[i].0 != nums[j].0);
                    }
                }
                assert forall|i: int| 0 <= i < next.len() implies exists|k: int|
                    0 <= k < CICP_COUNT && #[trigger] next[i].1 == cicp_type(k) by {
                    if i < nums.len() {
                        assert(next[i] == nums[i]);
                    }
                }
            }
        }
    }
}

/// Reading the lines of `s[from..]` keeps the recorded pairs well formed.
proof fn lemma_collect_from(s: Seq<char>, from: int, nums: Seq<(Seq<char>, Seq<char>)>)
    requires
        well_recorded(nums),
    ensures
        well_recorded(collect_from(s, from, nums)),
    decreases s.len() + 1 - from,
{
    if from < 0 || from > s.len() {
    } else {
        lemma_find_from_bounds(s, "\n"@, from);
        match find_from(s, "\n"@, from) {
            Some(k) => {
                lemma_note_line(nums, s.subrange(from, k));
                lemma_collect_from(s, k + 1, note_line(nums, s.subrange(from, k)));
            },
            None => {
                lemma_note_line(nums, s.subrange(from, s.len() as int));
            },
        }
    }
}

/// Each anonymous newtype is renamed once, after a CICP typedef: the pairs
/// read from any bindings have distinct numbers and CICP typedefs.
pub proof fn lemma_collected_nums_well_recorded(bindings: Seq<char>)
    ensures
        well_recorded(collect_nums(bindings)),
{
    lemma_collect_from(bindings, 0, Seq::empty());
}

/// How bindgen declares the anonymous newtype `num`.
pub open spec fn newtype_text(num: Seq<char>) -> Seq<char> {
    "#[derive(Debug, Clone, Hash, PartialEq, Eq)]\npub struct _bindgen_ty_"@ + num
        + "(pub ::core::ffi::c_uint);"@
}

/// The declaration of the named newtype `ty` that replaces it.
pub open spec fn named_newtype_text(ty: Seq<char>) -> Seq<char> {
    "#[derive(Debug, Clone, Hash, PartialEq, Eq, Copy, PartialOrd, Ord)]\npub struct "@ + ty
        + "(pub u16);"@
}

/// The type and value of a constant of the anonymous newtype `num`.
pub open spec fn const_type_text(num: Seq<char>) -> Seq<char> {
    ": _bindgen_ty_"@ + num + " = _bindgen_ty_"@ + num + "("@
}

/// The same, retyped to `ty`.
pub open spec fn named_const_type_text(ty: Seq<char>) -> Seq<char> {
    ": "@ + ty + " = "@ + ty + "("@
}

/// bindgen's alias for the header's typedef `ty`.
pub open spec fn alias_text(ty: Seq<char>) -> Seq<char> {
    "pub type "@ + ty + " = u16;\n"@
}

/// Renames each recorded newtype in turn; fails at the first one whose
/// declaration is missing.
pub open spec fn retype_all(out: Seq<char>, nums: Seq<(Seq<char>, Seq<char>)>) -> Result<
    Seq<char>,
    TidyFailure,
>
    decreases nums.len(),
{
    if nums.len() == 0 {
        Ok(out)
    } else {
        let num = nums[0].0;
        let ty = nums[0].1;
        if !contains(out, newtype_text(num)) {
            Err(TidyFailure::MissingNewtype(num))
        } else {
            let renamed = replace_all(out, newtype_text(num), named_newtype_text(ty));
            retype_all(
                replace_all(renamed, const_type_text(num), named_const_type_text(ty)),
                nums.drop_first(),
            )
        }
    }
}

/// Removes the typedef aliases of the CICP types from entry `k` on; fails at
/// the first one that is missing.
pub open spec fn strip_aliases_from(out: Seq<char>, k: int) -> Result<Seq<char>, TidyFailure>
    decreases CICP_COUNT - k,
{
    if k < 0 || k >= CICP_COUNT {
        Ok(out)
    } else if !contains(out, alias_text(cicp_type(k))) {
        Err(TidyFailure::MissingAlias(cicp_type(k)))
    } else {
        strip_aliases_from(replace_all(out, alias_text(cicp_type(k)), Seq::empty()), k + 1)
    }
}

/// The tidied bindings, or why they cannot be tidied.
pub open spec fn tidy_spec(bindings: Seq<char>) -> Result<Seq<char>, TidyFailure> {
    match retype_all(bindings, collect_nums(bindings)) {
        Err(e) => Err(e),
        Ok(renamed) => match strip_aliases_from(renamed, 0) {
            Err(e) => Err(e),
            Ok(stripped) => if contains(stripped, "_bindgen_ty_"@) {
                Err(TidyFailure::LeftoverAnonymous)
            } else {
                Ok(stripped)
            },
        },
    }
}

/// The plain view of recorded pairs.
pub open spec fn pairs_view(v: Seq<(Vec<char>, Vec<char>)>) -> Seq<(Seq<char>, Seq<char>)> {
    Seq::new(v.len(), |i: int| (v[i].0@, v[i].1@))
}

/// Whether some recorded pair has the number `num`.
fn seen_num(nums: &Vec<(Vec<char>, Vec<char>)>, num: &[char]) -> (r: bool)
    ensures
        r == has_num(pairs_view(nums@), num@),
{
    let mut i: usize = 0;
    while i < nums.len()
        invariant
            i <= nums@.len(),
            forall|j: int| 0 <= j < i ==> nums@[j].0@ != num@,
        decreases nums@.len() - i,
    {
        if same_chars(nums[i].0.as_slice(), num) {
            assert(pairs_view(nums@)[i as int].0 == num@);
            return true;
        }
        i = i + 1;
    }
    assert forall|j: int| 0 <= j < pairs_view(nums@).len() implies #[trigger] pairs_view(
        nums@,
    )[j].0 != num@ by {
        assert(pairs_view(nums@)[j].0 == nums@[j].0@);
    }
    false
}

/// The typedef of the first CICP entry whose prefix starts `name`.
fn cicp_type_for(name: &[char]) -> (r: Option<&'static str>)
    ensures
        match r {
            Some(t) => cicp_type_of(name@) == Some(t@),
            None => cicp_type_of(name@) is None,
        },
{
    let mut k: usize = 0;
    while k < CICP_COUNT
        invariant
            k <= CICP_COUNT,
            cicp_type_of(name@) == cicp_type_from(name@, k as int),
        decreases CICP_COUNT - k,
    {
        let (prefix, ty) = cicp_entry(k);
        let p = chars_of(prefix);
        if match_at(name, 0, p.as_slice()) {
            return Some(ty);
        }
        k = k + 1;
    }
    None
}

/// The constant's name and newtype number of a `pub const` line.
fn parse_const_line(line: &[char]) -> (r: Option<(Vec<char>, Vec<char>)>)
    ensures
        match r {
            Some((name, num)) => const_line_parts(line@) == Some((name@, num@)),
            None => const_line_parts(line@) is None,
        },
{
    let lead = chars_of("pub const ");
    if !match_at(line, 0, lead.as_slice()) {
        return None;
    }
    let rest = slice_of(line, lead.len(), line.len());
    assert(rest@ == line@.skip(lead@.len() as int));
    let marker = chars_of(": _bindgen_ty_");
    let at = match find_in(rest.as_slice(), marker.as_slice(), 0) {
        Some(at) => at,
        None => return None,
    };
    proof {
        lemma_find_from_bounds(rest@, marker@, 0);
    }
    let name = slice_of(rest.as_slice(), 0, at);
    let after = slice_of(rest.as_slice(), at + marker.len(), rest.len());
    assert(name@ =~= rest@.take(at as int));
    assert(after@ =~= rest@.skip(at + marker@.len()));
    let space = chars_of(" ");
    let end = match find_in(after.as_slice(), space.as_slice(), 0) {
        Some(end) => end,
        None => return None,
    };
    proof {
        lemma_find_from_bounds(after@, space@, 0);
    }
    let num = slice_of(after.as_slice(), 0, end);
    assert(num@ =~= after@.take(end as int));
    Some((name, num))
}

/// Records the newtype number of `line` if it is a constant of a CICP type.
fn record_line(nums: &mut Vec<(Vec<char>, Vec<char>)>, line: &[char])
    ensures
        pairs_view(final(nums)@) == note_line(pairs_view(old(nums)@), line@),
{
    if let Some((name, num)) = parse_const_line(line) {
        if let Some(ty) = cicp_type_for(name.as_slice()) {
            if !seen_num(nums, num.as_slice()) {
                let ghost before = pairs_view(nums@);
                let t = chars_of(ty);
                nums.push((num, t));
                assert(pairs_view(nums@) =~= before.push((num@, t@)));
            }
        }
    }
}

/// Rewrites the bindings so that the anonymous CICP newtypes take the names
/// of the header's typedefs and no `_bindgen_ty_*` identifier remains.
///
/// Each constant `pub const NAME: _bindgen_ty_NUM ...` whose name starts
/// with a CICP prefix ties newtype `NUM` to that prefix's typedef. Each such
/// newtype's declaration is replaced by a `u16` newtype named after the
/// typedef, and its constants are retyped; then the typedef aliases are
/// removed. Fails when a declaration or alias is missing, or when an
/// anonymous identifier survives.
pub fn tidy_cicp_enums(bindings: &str) -> (r: Result<String, TidyError>)
    ensures
        match r {
            Ok(out) => tidy_spec(bindings@) == Ok::<Seq<char>, TidyFailure>(out@),
            Err(e) => tidy_spec(bindings@) == Err::<Seq<char>, TidyFailure>(e@),
        },
        r matches Ok(out) ==> !contains(out@, "_bindgen_ty_"@),
{
    let text = chars_of(bindings);
    let newline = chars_of("\n");

    // Learn which typedef each anonymous newtype belongs to from its
    // constants.
    let mut nums: Vec<(Vec<char>, Vec<char>)> = Vec::new();
    let mut pos: usize = 0;
    proof {
        reveal_strlit("\n");
    }
    assert(pairs_view(nums@) =~= Seq::<(Seq<char>, Seq<char>)>::empty());
    loop
        invariant_except_break
            pos <= text@.len(),
            collect_nums(text@) == collect_from(text@, pos as int, pairs_view(nums@)),
        invariant
            text@ == bindings@,
            newline@ == "\n"@,
            newline@.len() == 1,
        ensures
            collect_nums(text@) == pairs_view(nums@),
        decreases text@.len() - pos,
    {
        match find_in(text.as_slice(), newline.as_slice(), pos) {
            Some(k) => {
                proof {
                    lemma_find_from_bounds(text@, newline@, pos as int);
                }
                let line = slice_of(text.as_slice(), pos, k);
                record_line(&mut nums, line.as_slice());
                assert(k + 1 <= text.len());
                pos = k + 1;
            },
            None => {
                let line = slice_of(text.as_slice(), pos, text.len());
                record_line(&mut nums, line.as_slice());
                break ;
            },
        }
    }
    let ghost found = pairs_view(nums@);
    assert(found == collect_nums(bindings@));

    // Rename each anonymous newtype and retype its constants.
    let mut out = text;
    let mut j: usize = 0;
    assert(found.skip(0) =~= found);
    while j < nums.len()
        invariant
            j <= nums@.len(),
            found == pairs_view(nums@),
            found == collect_nums(bindings@),
            retype_all(bindings@, found) == retype_all(out@, found.skip(j as int)),
        decreases nums@.len() - j,
    {
        let num = &nums[j].0;
        let ty = &nums[j].1;
        let ghost rest = found.skip(j as int);
        assert(rest[0] == (num@, ty@));
        assert(rest.drop_first() =~= found.skip(j + 1));

        let mut newtype: Vec<char> = Vec::new();
        push_str(&mut newtype, "#[derive(Debug, Clone, Hash, PartialEq, Eq)]\npub struct _bindgen_ty_");
        push_all(&mut newtype, num.as_slice());
        push_str(&mut newtype, "(pub ::core::ffi::c_uint);");
        assert(newtype@ =~= newtype_text(num@));
        proof {
            reveal_strlit("(pub ::core::ffi::c_uint);");
        }

        if find_in(out.as_slice(), newtype.as_slice(), 0).is_none() {
            return Err(TidyError::MissingNewtype(string_of(num.as_slice())));
        }

        let mut named: Vec<char> = Vec::new();
        push_str(&mut named, "#[derive(Debug, Clone, Hash, PartialEq, Eq, Copy, PartialOrd, Ord)]\npub struct ");
        push_all(&mut named, ty.as_slice());
        push_str(&mut named, "(pub u16);");
        assert(named@ =~= named_newtype_text(ty@));

        out = replace_in(out.as_slice(), newtype.as_slice(), named.as_slice());

        let mut const_ty: Vec<char> = Vec::new();
        push_str(&mut const_ty, ": _bindgen_ty_");
        push_all(&mut const_ty, num.as_slice());
        push_str(&mut const_ty, " = _bindgen_ty_");
        push_all(&mut const_ty, num.as_slice());
        push_str(&mut const_ty, "(");
        assert(const_ty@ =~= const_type_text(num@));
        proof {
            reveal_strlit("(");
        }

        let mut named_const: Vec<char> = Vec::new();
        push_str(&mut named_const, ": ");
        push_all(&mut named_const, ty.as_slice());
        push_str(&mut named_const, " = ");
        push_all(&mut named_const, ty.as_slice());
        push_str(&mut named_const, "(");
        assert(named_const@ =~= named_const_type_text(ty@));

        out = replace_in(out.as_slice(), const_ty.as_slice(), named_const.as_slice());
        j = j + 1;
    }
    assert(found.skip(nums@.len() as int) =~= Seq::<(Seq<char>, Seq<char>)>::empty());
    let ghost renamed = out@;
    assert(retype_all(bindings@, found) == Ok::<Seq<char>, TidyFailure>(renamed));

    // The renamed newtypes take the place of bindgen's typedef aliases.
    let mut k: usize = 0;
    while k < CICP_COUNT
        invariant
            k <= CICP_COUNT,
            retype_all(bindings@, collect_nums(bindings@)) == Ok::<Seq<char>, TidyFailure>(renamed),
            strip_aliases_from(renamed, 0) == strip_aliases_from(out@, k as int),
        decreases CICP_COUNT - k,
    {
        let (_, ty) = cicp_entry(k);
        let mut alias: Vec<char> = Vec::new();
        push_str(&mut alias, "pub type ");
        push_str(&mut alias, ty);
        push_str(&mut alias, " = u16;\n");
        proof {
            reveal_strlit(" = u16;\n");
        }
        assert(alias@ =~= alias_text(cicp_type(k as int)));
        if find_in(out.as_slice(), alias.as_slice(), 0).is_none() {
            return Err(TidyError::MissingAlias(String::from_str(ty)));
        }
        let empty: Vec<char> = Vec::new();
        assert(empty@ =~= Seq::<char>::empty());
        out = replace_in(out.as_slice(), alias.as_slice(), empty.as_slice());
        k = k + 1;
    }

    let leftover = chars_of("_bindgen_ty_");
    if find_in(out.as_slice(), leftover.as_slice(), 0).is_some() {
        return Err(TidyError::LeftoverAnonymous);
    }
    Ok(string_of(out.as_slice()))
}


/// The traits that a reviewed libavif type gets derived beyond `Debug`.
#[derive(Debug, Clone, Copy, PartialEq, Eq, Structural)]
pub enum DeriveSet {
    /// Plain-data types (no pointers into libavif-owned memory).
    PlainData,
    /// Plain-data types with floating-point fields: no `Hash`, `Ord`, `Eq`.
    FloatData,
    /// Newtype enums: bindgen derives `Clone`/`Hash`/`PartialEq`/`Eq` on
    /// them unconditionally, so only the rest.
    NewtypeEnum,
}

impl DeriveSet {
    /// The names of the traits in this set.
    pub open spec fn names_spec(self) -> Seq<Seq<char>> {
        match self {
            DeriveSet::PlainData => seq![
                "Copy"@,
                "Clone"@,
                "Hash"@,
                "PartialOrd"@,
                "Ord"@,
                "PartialEq"@,
                "Eq"@,
            ],
            DeriveSet::FloatData => seq!["Copy"@, "Clone"@, "PartialOrd"@, "PartialEq"@],
            DeriveSet::NewtypeEnum => seq!["Copy"@, "PartialOrd"@, "Ord"@],
        }
    }

    /// The names of the traits in this set.
    pub fn names(self) -> (r: Vec<String>)
        ensures
            strings_view(r@) == self.names_spec(),
    {
        let lits: Vec<&str> = match self {
            DeriveSet::PlainData => vec!["Copy", "Clone", "Hash", "PartialOrd", "Ord", "PartialEq", "Eq"],
            DeriveSet::FloatData => vec!["Copy", "Clone", "PartialOrd", "PartialEq"],
            DeriveSet::NewtypeEnum => vec!["Copy", "PartialOrd", "Ord"],
        };
        let mut r: Vec<String> = Vec::new();
        let mut i: usize = 0;
        while i < lits.len()
            invariant
                i <= lits@.len(),
                r@.len() == i,
                forall|j: int| 0 <= j < i ==> #[trigger] r@[j]@ == lits@[j]@,
            decreases lits@.len() - i,
        {
            r.push(String::from_str(lits[i]));
            i = i + 1;
        }
        assert(Seq::new(lits@.len(), |j: int| lits@[j]@) =~= self.names_spec());
        assert(strings_view(r@) =~= Seq::new(lits@.len(), |j: int| lits@[j]@));
        r
    }
}

/// The characters of each string.
pub open spec fn strings_view(v: Seq<String>) -> Seq<Seq<char>> {
    Seq::new(v.len(), |i: int| v[i]@)
}

/// The number of reviewed libavif types.
pub const ALLOWLIST_LEN: usize = 34;

/// The `i`-th reviewed libavif type and the traits it gets.
pub open spec fn allowlist_entry_spec(i: int) -> (Seq<char>, DeriveSet) {
    if i == 0 {
        ("avifPlanesFlag"@, DeriveSet::NewtypeEnum)
    } else if i == 1 {
        ("avifChannelIndex"@, DeriveSet::NewtypeEnum)
    } else if i == 2 {
        ("avifResult"@, DeriveSet::NewtypeEnum)
    } else if i == 3 {
        ("avifHeaderFormat"@, DeriveSet::NewtypeEnum)
    } else if i == 4 {
        ("avifPixelFormat"@, DeriveSet::NewtypeEnum)
    } else if i == 5 {
        ("avifChromaSamplePosition"@, DeriveSet::NewtypeEnum)
    } else if i == 6 {
        ("avifRange"@, DeriveSet::NewtypeEnum)
    } else if i == 7 {
        ("avifTransformFlag"@, DeriveSet::NewtypeEnum)
    } else if i == 8 {
        ("avifSampleTransformRecipe"@, DeriveSet::NewtypeEnum)
    } else if i == 9 {
        ("avifRGBFormat"@, DeriveSet::NewtypeEnum)
    } else if i == 10 {
        ("avifChromaUpsampling"@, DeriveSet::NewtypeEnum)
    } else if i == 11 {
        ("avifChromaDownsampling"@, DeriveSet::NewtypeEnum)
    } else if i == 12 {
        ("avifCodecChoice"@, DeriveSet::NewtypeEnum)
    } else if i == 13 {
        ("avifCodecFlag"@, DeriveSet::NewtypeEnum)
    } else if i == 14 {
        ("avifStrictFlag"@, DeriveSet::NewtypeEnum)
    } else if i == 15 {
        ("avifDecoderSource"@, DeriveSet::NewtypeEnum)
    } else if i == 16 {
        ("avifProgressiveState"@, DeriveSet::NewtypeEnum)
    } else if i == 17 {
        ("avifImageContentTypeFlag"@, DeriveSet::NewtypeEnum)
    } else if i == 18 {
        ("avifAddImageFlag"@, DeriveSet::NewtypeEnum)
    } else if i == 19 {
        ("avifPixelFormatInfo"@, DeriveSet::PlainData)
    } else if i == 20 {
        ("avifDiagnostics"@, DeriveSet::PlainData)
    } else if i == 21 {
        ("avifFraction"@, DeriveSet::PlainData)
    } else if i == 22 {
        ("avifSignedFraction"@, DeriveSet::PlainData)
    } else if i == 23 {
        ("avifUnsignedFraction"@, DeriveSet::PlainData)
    } else if i == 24 {
        ("avifPixelAspectRatioBox"@, DeriveSet::PlainData)
    } else if i == 25 {
        ("avifCleanApertureBox"@, DeriveSet::PlainData)
    } else if i == 26 {
        ("avifImageRotation"@, DeriveSet::PlainData)
    } else if i == 27 {
        ("avifImageMirror"@, DeriveSet::PlainData)
    } else if i == 28 {
        ("avifCropRect"@, DeriveSet::PlainData)
    } else if i == 29 {
        ("avifContentLightLevelInformationBox"@, DeriveSet::PlainData)
    } else if i == 30 {
        ("avifIOStats"@, DeriveSet::PlainData)
    } else if i == 31 {
        ("avifExtent"@, DeriveSet::PlainData)
    } else if i == 32 {
        ("avifScalingMode"@, DeriveSet::PlainData)
    } else if i == 33 {
        ("avifImageTiming"@, DeriveSet::FloatData)
    } else {
        (Seq::empty(), DeriveSet::NewtypeEnum)
    }
}

/// The `i`-th reviewed libavif type and the traits it gets.
fn allowlist_entry(i: usize) -> (r: (&'static str, DeriveSet))
    requires
        i < ALLOWLIST_LEN,
    ensures
        (r.0@, r.1) == allowlist_entry_spec(i as int),
{
    match i {
        0 => ("avifPlanesFlag", DeriveSet::NewtypeEnum),
        1 => ("avifChannelIndex", DeriveSet::NewtypeEnum),
        2 => ("avifResult", DeriveSet::NewtypeEnum),
        3 => ("avifHeaderFormat", DeriveSet::NewtypeEnum),
        4 => ("avifPixelFormat", DeriveSet::NewtypeEnum),
        5 => ("avifChromaSamplePosition", DeriveSet::NewtypeEnum),
        6 => ("avifRange", DeriveSet::NewtypeEnum),
        7 => ("avifTransformFlag", DeriveSet::NewtypeEnum),
        8 => ("avifSampleTransformRecipe", DeriveSet::NewtypeEnum),
        9 => ("avifRGBFormat", DeriveSet::NewtypeEnum),
        10 => ("avifChromaUpsampling", DeriveSet::NewtypeEnum),
        11 => ("avifChromaDownsampling", DeriveSet::NewtypeEnum),
        12 => ("avifCodecChoice", DeriveSet::NewtypeEnum),
        13 => ("avifCodecFlag", DeriveSet::NewtypeEnum),
        14 => ("avifStrictFlag", DeriveSet::NewtypeEnum),
        15 => ("avifDecoderSource", DeriveSet::NewtypeEnum),
        16 => ("avifProgressiveState", DeriveSet::NewtypeEnum),
        17 => ("avifImageContentTypeFlag", DeriveSet::NewtypeEnum),
        18 => ("avifAddImageFlag", DeriveSet::NewtypeEnum),
        19 => ("avifPixelFormatInfo", DeriveSet::PlainData),
        20 => ("avifDiagnostics", DeriveSet::PlainData),
        21 => ("avifFraction", DeriveSet::PlainData),
        22 => ("avifSignedFraction", DeriveSet::PlainData),
        23 => ("avifUnsignedFraction", DeriveSet::PlainData),
        24 => ("avifPixelAspectRatioBox", DeriveSet::PlainData),
        25 => ("avifCleanApertureBox", DeriveSet::PlainData),
        26 => ("avifImageRotation", DeriveSet::PlainData),
        27 => ("avifImageMirror", DeriveSet::PlainData),
        28 => ("avifCropRect", DeriveSet::PlainData),
        29 => ("avifContentLightLevelInformationBox", DeriveSet::PlainData),
        30 => ("avifIOStats", DeriveSet::PlainData),
        31 => ("avifExtent", DeriveSet::PlainData),
        32 => ("avifScalingMode", DeriveSet::PlainData),
        _ => ("avifImageTiming", DeriveSet::FloatData),
    }
}

/// The traits of the first reviewed type at or after entry `i` named
/// `name`.
pub open spec fn allowlisted_from(name: Seq<char>, i: int) -> Option<DeriveSet>
    decreases ALLOWLIST_LEN - i,
{
    if i < 0 || i >= ALLOWLIST_LEN {
        None
    } else if allowlist_entry_spec(i).0 == name {
        Some(allowlist_entry_spec(i).1)
    } else {
        allowlisted_from(name, i + 1)
    }
}

/// The traits, beyond `Debug`, that bindgen derives for the libavif type
/// `name`: those of its entry in the reviewed list, none for a type not on
/// it.
pub fn extra_derives(name: &str) -> (r: Vec<String>)
    ensures
        strings_view(r@) == match allowlisted_from(name@, 0) {
            Some(set) => set.names_spec(),
            None => Seq::empty(),
        },
{
    let wanted = chars_of(name);
    let mut i: usize = 0;
    while i < ALLOWLIST_LEN
        invariant
            i <= ALLOWLIST_LEN,
            wanted@ == name@,
            allowlisted_from(name@, 0) == allowlisted_from(name@, i as int),
        decreases ALLOWLIST_LEN - i,
    {
        let (entry, set) = allowlist_entry(i);
        let entry_chars = chars_of(entry);
        if same_chars(entry_chars.as_slice(), wanted.as_slice()) {
            return set.names();
        }
        i = i + 1;
    }
    let r: Vec<String> = Vec::new();
    assert(strings_view(r@) =~= Seq::<Seq<char>>::empty());
    r
}

/// Every reviewed plain-data struct gets `Copy`, `Clone`, `Hash`,
/// `PartialOrd`, `Ord`, `PartialEq` and `Eq`; `avifImageTiming`, which holds
/// floats, gets `Copy`, `Clone`, `PartialOrd` and `PartialEq`; every reviewed
/// newtype enum gets `Copy`, `PartialOrd` and `Ord`.
/// An entry that does not carry `name` is passed over by the lookup.
proof fn lemma_lookup_step(name: Seq<char>, j: int)
    requires
        0 <= j < ALLOWLIST_LEN,
        allowlist_entry_spec(j).0 != name,
    ensures
        allowlisted_from(name, j) == allowlisted_from(name, j + 1),
{
}

/// The lookup finds `avifPixelFormatInfo` at its entry.
proof fn lemma_lookup_pixel_format_info()
    ensures
        allowlisted_from("avifPixelFormatInfo"@, 0) == Some(DeriveSet::PlainData),
{
    assert(allowlist_entry_spec(0).0 != "avifPixelFormatInfo"@) by {
        reveal_strlit("avifPlanesFlag");
        reveal_strlit("avifPixelFormatInfo");
        assert("avifPlanesFlag"@.len() != "avifPixelFormatInfo"@.len());
    }
    lemma_lookup_step("avifPixelFormatInfo"@, 0);
    assert(allowlist_entry_spec(1).0 != "avifPixelFormatInfo"@) by {
        reveal_strlit("avifChannelIndex");
        reveal_strlit("avifPixelFormatInfo");
        assert("avifChannelIndex"@.len() != "avifPixelFormatInfo"@.len());
    }
    lemma_lookup_step("avifPixelFormatInfo"@, 1);
    assert(allowlist_entry_spec(2).0 != "avifPixelFormatInfo"@) by {
        reveal_strlit("avifResult");
        reveal_strlit("avifPixelFormatInfo");
        assert("avifResult"@.len() != "avifPixelFormatInfo"@.len());
    }
    lemma_lookup_step("avifPixelFormatInfo"@, 2);
    assert(allowlist_entry_spec(3).0 != "avifPixelFormatInfo"@) by {
        reveal_strlit("avifHeaderFormat");
        reveal_strlit("avifPixelFormatInfo");
        assert("avifHeaderFormat"@.len() != "avifPixelFormatInfo"@.len());
    }
    lemma_lookup_step("avifPixelFormatInfo"@, 3);
    assert(allowlist_entry_spec(4).0 != "avifPixelFormatInfo"@) by {
        reveal_strlit("avifPixelFormat");
        reveal_strlit("avifPixelFormatInfo");
        assert("avifPixelFormat"@.len() != "avifPixelFormatInfo"@.len());
    }
    lemma_lookup_step("avifPixelFormatInfo"@, 4);
    assert(allowlist_entry_spec(5).0 != "avifPixelFormatInfo"@) by {
        reveal_strlit("avifChromaSamplePosition");
        reveal_strlit("avifPixelFormatInfo");
        assert("avifChromaSamplePosition"@.len() != "avifPixelFormatInfo"@.len());
    }
    lemma_lookup_step("avifPixelFormatInfo"@, 5);
    assert(allowlist_entry_spec(6).0 != "avifPixelFormatInfo"@) by {
        reveal_strlit("avifRange");
        reveal_strlit("avifPixelFormatInfo");
        assert("avifRange"@.len() != "avifPixelFormatInfo"@.len());
    }
    lemma_lookup_step("avifPixelFormatInfo"@, 6);
    assert(allowlist_entry_spec(7).0 != "avifPixelFormatInfo"@) by {
        reveal_strlit("avifTransformFlag");
        reveal_strlit("avifPixelFormatInfo");
        assert("avifTransformFlag"@.len() != "avifPixelFormatInfo"@.len());
    }
    lemma_lookup_step("avifPixelFormatInfo"@, 7);
    assert(allowlist_entry_spec(8).0 != "avifPixelFormatInfo"@) by {
        reveal_strlit("avifSampleTransformRecipe");
        reveal_strlit("avifPixelFormatInfo");
        assert("avifSampleTransformRecipe"@.len() != "avifPixelFormatInfo"@.len());
    }
    lemma_lookup_step("avifPixelFormatInfo"@, 8);
    assert(allowlist_entry_spec(9).0 != "avifPixelFormatInfo"@) by {
        reveal_strlit("avifRGBFormat");
        reveal_strlit("avifPixelFormatInfo");
        assert("avifRGBFormat"@.len() != "avifPixelFormatInfo"@.len());
    }
    lemma_lookup_step("avifPixelFormatInfo"@, 9);
    assert(allowlist_entry_spec(10).0 != "avifPixelFormatInfo"@) by {
        reveal_strlit("avifChromaUpsampling");
        reveal_strlit("avifPixelFormatInfo");
        assert("avifChromaUpsampling"@.len() != "avifPixelFormatInfo"@.len());
    }
    lemma_lookup_step("avifPixelFormatInfo"@, 10);
    assert(allowlist_entry_spec(11).0 != "avifPixelFormatInfo"@) by {
        reveal_strlit("avifChromaDownsampling");
        reveal_strlit("avifPixelFormatInfo");
        assert("avifChromaDownsampling"@.len() != "avifPixelFormatInfo"@.len());
    }
    lemma_lookup_step("avifPixelFormatInfo"@, 11);
    assert(allowlist_entry_spec(12).0 != "avifPixelFormatInfo"@) by {
        reveal_strlit("avifCodecChoice");
        reveal_strlit("avifPixelFormatInfo");
        assert("avifCodecChoice"@.len() != "avifPixelFormatInfo"@.len());
    }
    lemma_lookup_step("avifPixelFormatInfo"@, 12);
    assert(allowlist_entry_spec(13).0 != "avifPixelFormatInfo"@) by {
        reveal_strlit("avifCodecFlag");
        reveal_strlit("avifPixelFormatInfo");
        assert("avifCodecFlag"@.len() != "avifPixelFormatInfo"@.len());
    }
    lemma_lookup_step("avifPixelFormatInfo"@, 13);
    assert(allowlist_entry_spec(14).0 != "avifPixelFormatInfo"@) by {
        reveal_strlit("avifStrictFlag");
        reveal_strlit("avifPixelFormatInfo");
        assert("avifStrictFlag"@.len() != "avifPixelFormatInfo"@.len());
    }
    lemma_lookup_step("avifPixelFormatInfo"@, 14);
    assert(allowlist_entry_spec(15).0 != "avifPixelFormatInfo"@) by {
        reveal_strlit("avifDecoderSource");
        reveal_strlit("avifPixelFormatInfo");
        assert("avifDecoderSource"@.len() != "avifPixelFormatInfo"@.len());
    }
    lemma_lookup_step("avifPixelFormatInfo"@, 15);
    assert(allowlist_entry_spec(16).0 != "avifPixelFormatInfo"@) by {
        reveal_strlit("avifProgressiveState");
        reveal_strlit("avifPixelFormatInfo");
        assert("avifProgressiveState"@.len() != "avifPixelFormatInfo"@.len());
    }
    lemma_lookup_step("avifPixelFormatInfo"@, 16);
    assert(allowlist_entry_spec(17).0 != "avifPixelFormatInfo"@) by {
        reveal_strlit("avifImageContentTypeFlag");
        reveal_strlit("avifPixelFormatInfo");
        assert("avifImageContentTypeFlag"@.len() != "avifPixelFormatInfo"@.len());
    }
    lemma_lookup_step("avifPixelFormatInfo"@, 17);
    assert(allowlist_entry_spec(18).0 != "avifPixelFormatInfo"@) by {
        reveal_strlit("avifAddImageFlag");
        reveal_strlit("avifPixelFormatInfo");
        assert("avifAddImageFlag"@.len() != "avifPixelFormatInfo"@.len());
    }
    lemma_lookup_step("avifPixelFormatInfo"@, 18);
}

/// The lookup finds `avifDiagnostics` at its entry.
proof fn lemma_lookup_diagnostics()
    ensures
        allowlisted_from("avifDiagnostics"@, 0) == Some(DeriveSet::PlainData),
{
    assert(allowlist_entry_spec(0).0 != "avifDiagnostics"@) by {
        reveal_strlit("avifPlanesFlag");
        reveal_strlit("avifDiagnostics");
        assert("avifPlanesFlag"@.len() != "avifDiagnostics"@.len());
    }
    lemma_lookup_step("avifDiagnostics"@, 0);
    assert(allowlist_entry_spec(1).0 != "avifDiagnostics"@) by {
        reveal_strlit("avifChannelIndex");
        reveal_strlit("avifDiagnostics");
        assert("avifChannelIndex"@.len() != "avifDiagnostics"@.len());
    }
    lemma_lookup_step("avifDiagnostics"@, 1);
    assert(allowlist_entry_spec(2).0 != "avifDiagnostics"@) by {
        reveal_strlit("avifResult");
        reveal_strlit("avifDiagnostics");
        assert("avifResult"@.len() != "avifDiagnostics"@.len());
    }
    lemma_lookup_step("avifDiagnostics"@, 2);
    assert(allowlist_entry_spec(3).0 != "avifDiagnostics"@) by {
        reveal_strlit("avifHeaderFormat");
        reveal_strlit("avifDiagnostics");
        assert("avifHeaderFormat"@.len() != "avifDiagnostics"@.len());
    }
    lemma_lookup_step("avifDiagnostics"@, 3);
    assert(allowlist_entry_spec(4).0 != "avifDiagnostics"@) by {
        reveal_strlit("avifPixelFormat");
        reveal_strlit("avifDiagnostics");
        assert("avifPixelFormat"@[4] != "avifDiagnostics"@[4]);
    }
    lemma_lookup_step("avifDiagnostics"@, 4);
    assert(allowlist_entry_spec(5).0 != "avifDiagnostics"@) by {
        reveal_strlit("avifChromaSamplePosition");
        reveal_strlit("avifDiagnostics");
        assert("avifChromaSamplePosition"@.len() != "avifDiagnostics"@.len());
    }
    lemma_lookup_step("avifDiagnostics"@, 5);
    assert(allowlist_entry_spec(6).0 != "avifDiagnostics"@) by {
        reveal_strlit("avifRange");
        reveal_strlit("avifDiagnostics");
        assert("avifRange"@.len() != "avifDiagnostics"@.len());
    }
    lemma_lookup_step("avifDiagnostics"@, 6);
    assert(allowlist_entry_spec(7).0 != "avifDiagnostics"@) by {
        reveal_strlit("avifTransformFlag");
        reveal_strlit("avifDiagnostics");
        assert("avifTransformFlag"@.len() != "avifDiagnostics"@.len());
    }
    lemma_lookup_step("avifDiagnostics"@, 7);
    assert(allowlist_entry_spec(8).0 != "avifDiagnostics"@) by {
        reveal_strlit("avifSampleTransformRecipe");
        reveal_strlit("avifDiagnostics");
        assert("avifSampleTransformRecipe"@.len() != "avifDiagnostics"@.len());
    }
    lemma_lookup_step("avifDiagnostics"@, 8);
    assert(allowlist_entry_spec(9).0 != "avifDiagnostics"@) by {
        reveal_strlit("avifRGBFormat");
        reveal_strlit("avifDiagnostics");
        assert("avifRGBFormat"@.len() != "avifDiagnostics"@.len());
    }
    lemma_lookup_step("avifDiagnostics"@, 9);
    assert(allowlist_entry_spec(10).0 != "avifDiagnostics"@) by {
        reveal_strlit("avifChromaUpsampling");
        reveal_strlit("avifDiagnostics");
        assert("avifChromaUpsampling"@.len() != "avifDiagnostics"@.len());
    }
    lemma_lookup_step("avifDiagnostics"@, 10);
    assert(allowlist_entry_spec(11).0 != "avifDiagnostics"@) by {
        reveal_strlit("avifChromaDownsampling");
        reveal_strlit("avifDiagnostics");
        assert("avifChromaDownsampling"@.len() != "avifDiagnostics"@.len());
    }
    lemma_lookup_step("avifDiagnostics"@, 11);
    assert(allowlist_entry_spec(12).0 != "avifDiagnostics"@) by {
        reveal_strlit("avifCodecChoice");
        reveal_strlit("avifDiagnostics");
        assert("avifCodecChoice"@[4] != "avifDiagnostics"@[4]);
    }
    lemma_lookup_step("avifDiagnostics"@, 12);
    assert(allowlist_entry_spec(13).0 != "avifDiagnostics"@) by {
        reveal_strlit("avifCodecFlag");
        reveal_strlit("avifDiagnostics");
        assert("avifCodecFlag"@.len() != "avifDiagnostics"@.len());
    }
    lemma_lookup_step("avifDiagnostics"@, 13);
    assert(allowlist_entry_spec(14).0 != "avifDiagnostics"@) by {
        reveal_strlit("avifStrictFlag");
        reveal_strlit("avifDiagnostics");
        assert("avifStrictFlag"@.len() != "avifDiagnostics"@.len());
    }
    lemma_lookup_step("avifDiagnostics"@, 14);
    assert(allowlist_entry_spec(15).0 != "avifDiagnostics"@) by {
        reveal_strlit("avifDecoderSource");
        reveal_strlit("avifDiagnostics");
        assert("avifDecoderSource"@.len() != "avifDiagnostics"@.len());
    }
    lemma_lookup_step("avifDiagnostics"@, 15);
    assert(allowlist_entry_spec(16).0 != "avifDiagnostics"@) by {
        reveal_strlit("avifProgressiveState");
        reveal_strlit("avifDiagnostics");
        assert("avifProgressiveState"@.len() != "avifDiagnostics"@.len());
    }
    lemma_lookup_step("avifDiagnostics"@, 16);
    assert(allowlist_entry_spec(17).0 != "avifDiagnostics"@) by {
        reveal_strlit("avifImageContentTypeFlag");
        reveal_strlit("avifDiagnostics");
        assert("avifImageContentTypeFlag"@.len() != "avifDiagnostics"@.len());
    }
    lemma_lookup_step("avifDiagnostics"@, 17);
    assert(allowlist_entry_spec(18).0 != "avifDiagnostics"@) by {
        reveal_strlit("avifAddImageFlag");
        reveal_strlit("avifDiagnostics");
        assert("avifAddImageFlag"@.len() != "avifDiagnostics"@.len());
    }
    lemma_lookup_step("avifDiagnostics"@, 18);
    assert(allowlist_entry_spec(19).0 != "avifDiagnostics"@) by {
        reveal_strlit("avifPixelFormatInfo");
        reveal_strlit("avifDiagnostics");
        assert("avifPixelFormatInfo"@.len() != "avifDiagnostics"@.len());
    }
    lemma_lookup_step("avifDiagnostics"@, 19);
}

/// The lookup finds `avifFraction` at its entry.
proof fn lemma_lookup_fraction()
    ensures
        allowlisted_from("avifFraction"@, 0) == Some(DeriveSet::PlainData),
{
    assert(allowlist_entry_spec(0).0 != "avifFraction"@) by {
        reveal_strlit("avifPlanesFlag");
        reveal_strlit("avifFraction");
        assert("avifPlanesFlag"@.len() != "avifFraction"@.len());
    }
    lemma_lookup_step("avifFraction"@, 0);
    assert(allowlist_entry_spec(1).0 != "avifFraction"@) by {
        reveal_strlit("avifChannelIndex");
        reveal_strlit("avifFraction");
        assert("avifChannelIndex"@.len() != "avifFraction"@.len());
    }
    lemma_lookup_step("avifFraction"@, 1);
    assert(allowlist_entry_spec(2).0 != "avifFraction"@) by {
        reveal_strlit("avifResult");
        reveal_strlit("avifFraction");
        assert("avifResult"@.len() != "avifFraction"@.len());
    }
    lemma_lookup_step("avifFraction"@, 2);
    assert(allowlist_entry_spec(3).0 != "avifFraction"@) by {
        reveal_strlit("avifHeaderFormat");
        reveal_strlit("avifFraction");
        assert("avifHeaderFormat"@.len() != "avifFraction"@.len());
    }
    lemma_lookup_step("avifFraction"@, 3);
    assert(allowlist_entry_spec(4).0 != "avifFraction"@) by {
        reveal_strlit("avifPixelFormat");
        reveal_strlit("avifFraction");
        assert("avifPixelFormat"@.len() != "avifFraction"@.len());
    }
    lemma_lookup_step("avifFraction"@, 4);
    assert(allowlist_entry_spec(5).0 != "avifFraction"@) by {
        reveal_strlit("avifChromaSamplePosition");
        reveal_strlit("avifFraction");
        assert("avifChromaSamplePosition"@.len() != "avifFraction"@.len());
    }
    lemma_lookup_step("avifFraction"@, 5);
    assert(allowlist_entry_spec(6).0 != "avifFraction"@) by {
        reveal_strlit("avifRange");
        reveal_strlit("avifFraction");
        assert("avifRange"@.len() != "avifFraction"@.len());
    }
    lemma_lookup_step("avifFraction"@, 6);
    assert(allowlist_entry_spec(7).0 != "avifFraction"@) by {
        reveal_strlit("avifTransformFlag");
        reveal_strlit("avifFraction");
        assert("avifTransformFlag"@.len() != "avifFraction"@.len());
    }
    lemma_lookup_step("avifFraction"@, 7);
    assert(allowlist_entry_spec(8).0 != "avifFraction"@) by {
        reveal_strlit("avifSampleTransformRecipe");
        reveal_strlit("avifFraction");
        assert("avifSampleTransformRecipe"@.len() != "avifFraction"@.len());
    }
    lemma_lookup_step("avifFraction"@, 8);
    assert(allowlist_entry_spec(9).0 != "avifFraction"@) by {
        reveal_strlit("avifRGBFormat");
        reveal_strlit("avifFraction");
        assert("avifRGBFormat"@.len() != "avifFraction"@.len());
    }
    lemma_lookup_step("avifFraction"@, 9);
    assert(allowlist_entry_spec(10).0 != "avifFraction"@) by {
        reveal_strlit("avifChromaUpsampling");
        reveal_strlit("avifFraction");
        assert("avifChromaUpsampling"@.len() != "avifFraction"@.len());
    }
    lemma_lookup_step("avifFraction"@, 10);
    assert(allowlist_entry_spec(11).0 != "avifFraction"@) by {
        reveal_strlit("avifChromaDownsampling");
        reveal_strlit("avifFraction");
        assert("avifChromaDownsampling"@.len() != "avifFraction"@.len());
    }
    lemma_lookup_step("avifFraction"@, 11);
    assert(allowlist_entry_spec(12).0 != "avifFraction"@) by {
        reveal_strlit("avifCodecChoice");
        reveal_strlit("avifFraction");
        assert("avifCodecChoice"@.len() != "avifFraction"@.len());
    }
    lemma_lookup_step("avifFraction"@, 12);
    assert(allowlist_entry_spec(13).0 != "avifFraction"@) by {
        reveal_strlit("avifCodecFlag");
        reveal_strlit("avifFraction");
        assert("avifCodecFlag"@.len() != "avifFraction"@.len());
    }
    lemma_lookup_step("avifFraction"@, 13);
    assert(allowlist_entry_spec(14).0 != "avifFraction"@) by {
        reveal_strlit("avifStrictFlag");
        reveal_strlit("avifFraction");
        assert("avifStrictFlag"@.len() != "avifFraction"@.len());
    }
    lemma_lookup_step("avifFraction"@, 14);
    assert(allowlist_entry_spec(15).0 != "avifFraction"@) by {
        reveal_strlit("avifDecoderSource");
        reveal_strlit("avifFraction");
        assert("avifDecoderSource"@.len() != "avifFraction"@.len());
    }
    lemma_lookup_step("avifFraction"@, 15);
    assert(allowlist_entry_spec(16).0 != "avifFraction"@) by {
        reveal_strlit("avifProgressiveState");
        reveal_strlit("avifFraction");
        assert("avifProgressiveState"@.len() != "avifFraction"@.len());
    }
    lemma_lookup_step("avifFraction"@, 16);
    assert(allowlist_entry_spec(17).0 != "avifFraction"@) by {
        reveal_strlit("avifImageContentTypeFlag");
        reveal_strlit("avifFraction");
        assert("avifImageContentTypeFlag"@.len() != "avifFraction"@.len());
    }
    lemma_lookup_step("avifFraction"@, 17);
    assert(allowlist_entry_spec(18).0 != "avifFraction"@) by {
        reveal_strlit("avifAddImageFlag");
        reveal_strlit("avifFraction");
        assert("avifAddImageFlag"@.len() != "avifFraction"@.len());
    }
    lemma_lookup_step("avifFraction"@, 18);
    assert(allowlist_entry_spec(19).0 != "avifFraction"@) by {
        reveal_strlit("avifPixelFormatInfo");
        reveal_strlit("avifFraction");
        assert("avifPixelFormatInfo"@.len() != "avifFraction"@.len());
    }
    lemma_lookup_step("avifFraction"@, 19);
    assert(allowlist_entry_spec(20).0 != "avifFraction"@) by {
        reveal_strlit("avifDiagnostics");
        reveal_strlit("avifFraction");
        assert("avifDiagnostics"@.len() != "avifFraction"@.len());
    }
    lemma_lookup_step("avifFraction"@, 20);
}

/// The lookup finds `avifSignedFraction` at its entry.
proof fn lemma_lookup_signed_fraction()
    ensures
        allowlisted_from("avifSignedFraction"@, 0) == Some(DeriveSet::PlainData),
{
    assert(allowlist_entry_spec(0).0 != "avifSignedFraction"@) by {
        reveal_strlit("avifPlanesFlag");
        reveal_strlit("avifSignedFraction");
        assert("avifPlanesFlag"@.len() != "avifSignedFraction"@.len());
    }
    lemma_lookup_step("avifSignedFraction"@, 0);
    assert(allowlist_entry_spec(1).0 != "avifSignedFraction"@) by {
        reveal_strlit("avifChannelIndex");
        reveal_strlit("avifSignedFraction");
        assert("avifChannelIndex"@.len() != "avifSignedFraction"@.len());
    }
    lemma_lookup_step("avifSignedFraction"@, 1);
    assert(allowlist_entry_spec(2).0 != "avifSignedFraction"@) by {
        reveal_strlit("avifResult");
        reveal_strlit("avifSignedFraction");
        assert("avifResult"@.len() != "avifSignedFraction"@.len());
    }
    lemma_lookup_step("avifSignedFraction"@, 2);
    assert(allowlist_entry_spec(3).0 != "avifSignedFraction"@) by {
        reveal_strlit("avifHeaderFormat");
        reveal_strlit("avifSignedFraction");
        assert("avifHeaderFormat"@.len() != "avifSignedFraction"@.len());
    }
    lemma_lookup_step("avifSignedFraction"@, 3);
    assert(allowlist_entry_spec(4).0 != "avifSignedFraction"@) by {
        reveal_strlit("avifPixelFormat");
        reveal_strlit("avifSignedFraction");
        assert("avifPixelFormat"@.len() != "avifSignedFraction"@.len());
    }
    lemma_lookup_step("avifSignedFraction"@, 4);
    assert(allowlist_entry_spec(5).0 != "avifSignedFraction"@) by {
        reveal_strlit("avifChromaSamplePosition");
        reveal_strlit("avifSignedFraction");
        assert("avifChromaSamplePosition"@.len() != "avifSignedFraction"@.len());
    }
    lemma_lookup_step("avifSignedFraction"@, 5);
    assert(allowlist_entry_spec(6).0 != "avifSignedFraction"@) by {
        reveal_strlit("avifRange");
        reveal_strlit("avifSignedFraction");
        assert("avifRange"@.len() != "avifSignedFraction"@.len());
    }
    lemma_lookup_step("avifSignedFraction"@, 6);
    assert(allowlist_entry_spec(7).0 != "avifSignedFraction"@) by {
        reveal_strlit("avifTransformFlag");
        reveal_strlit("avifSignedFraction");
        assert("avifTransformFlag"@.len() != "avifSignedFraction"@.len());
    }
    lemma_lookup_step("avifSignedFraction"@, 7);
    assert(allowlist_entry_spec(8).0 != "avifSignedFraction"@) by {
        reveal_strlit("avifSampleTransformRecipe");
        reveal_strlit("avifSignedFraction");
        assert("avifSampleTransformRecipe"@.len() != "avifSignedFraction"@.len());
    }
    lemma_lookup_step("avifSignedFraction"@, 8);
    assert(allowlist_entry_spec(9).0 != "avifSignedFraction"@) by {
        reveal_strlit("avifRGBFormat");
        reveal_strlit("avifSignedFraction");
        assert("avifRGBFormat"@.len() != "avifSignedFraction"@.len());
    }
    lemma_lookup_step("avifSignedFraction"@, 9);
    assert(allowlist_entry_spec(10).0 != "avifSignedFraction"@) by {
        reveal_strlit("avifChromaUpsampling");
        reveal_strlit("avifSignedFraction");
        assert("avifChromaUpsampling"@.len() != "avifSignedFraction"@.len());
    }
    lemma_lookup_step("avifSignedFraction"@, 10);
    assert(allowlist_entry_spec(11).0 != "avifSignedFraction"@) by {
        reveal_strlit("avifChromaDownsampling");
        reveal_strlit("avifSignedFraction");
        assert("avifChromaDownsampling"@.len() != "avifSignedFraction"@.len());
    }
    lemma_lookup_step("avifSignedFraction"@, 11);
    assert(allowlist_entry_spec(12).0 != "avifSignedFraction"@) by {
        reveal_strlit("avifCodecChoice");
        reveal_strlit("avifSignedFraction");
        assert("avifCodecChoice"@.len() != "avifSignedFraction"@.len());
    }
    lemma_lookup_step("avifSignedFraction"@, 12);
    assert(allowlist_entry_spec(13).0 != "avifSignedFraction"@) by {
        reveal_strlit("avifCodecFlag");
        reveal_strlit("avifSignedFraction");
        assert("avifCodecFlag"@.len() != "avifSignedFraction"@.len());
    }
    lemma_lookup_step("avifSignedFraction"@, 13);
    assert(allowlist_entry_spec(14).0 != "avifSignedFraction"@) by {
        reveal_strlit("avifStrictFlag");
        reveal_strlit("avifSignedFraction");
        assert("avifStrictFlag"@.len() != "avifSignedFraction"@.len());
    }
    lemma_lookup_step("avifSignedFraction"@, 14);
    assert(allowlist_entry_spec(15).0 != "avifSignedFraction"@) by {
        reveal_strlit("avifDecoderSource");
        reveal_strlit("avifSignedFraction");
        assert("avifDecoderSource"@.len() != "avifSignedFraction"@.len());
    }
    lemma_lookup_step("avifSignedFraction"@, 15);
    assert(allowlist_entry_spec(16).0 != "avifSignedFraction"@) by {
        reveal_strlit("avifProgressiveState");
        reveal_strlit("avifSignedFraction");
        assert("avifProgressiveState"@.len() != "avifSignedFraction"@.len());
    }
    lemma_lookup_step("avifSignedFraction"@, 16);
    assert(allowlist_entry_spec(17).0 != "avifSignedFraction"@) by {
        reveal_strlit("avifImageContentTypeFlag");
        reveal_strlit("avifSignedFraction");
        assert("avifImageContentTypeFlag"@.len() != "avifSignedFraction"@.len());
    }
    lemma_lookup_step("avifSignedFraction"@, 17);
    assert(allowlist_entry_spec(18).0 != "avifSignedFraction"@) by {
        reveal_strlit("avifAddImageFlag");
        reveal_strlit("avifSignedFraction");
        assert("avifAddImageFlag"@.len() != "avifSignedFraction"@.len());
    }
    lemma_lookup_step("avifSignedFraction"@, 18);
    assert(allowlist_entry_spec(19).0 != "avifSignedFraction"@) by {
        reveal_strlit("avifPixelFormatInfo");
        reveal_strlit("avifSignedFraction");
        assert("avifPixelFormatInfo"@.len() != "avifSignedFraction"@.len());
    }
    lemma_lookup_step("avifSignedFraction"@, 19);
    assert(allowlist_entry_spec(20).0 != "avifSignedFraction"@) by {
        reveal_strlit("avifDiagnostics");
        reveal_strlit("avifSignedFraction");
        assert("avifDiagnostics"@.len() != "avifSignedFraction"@.len());
    }
    lemma_lookup_step("avifSignedFraction"@, 20);
    assert(allowlist_entry_spec(21).0 != "avifSignedFraction"@) by {
        reveal_strlit("avifFraction");
        reveal_strlit("avifSignedFraction");
        assert("avifFraction"@.len() != "avifSignedFraction"@.len());
    }
    lemma_lookup_step("avifSignedFraction"@, 21);
}

/// The lookup finds `avifUnsignedFraction` at its entry.
proof fn lemma_lookup_unsigned_fraction()
    ensures
        allowlisted_from("avifUnsignedFraction"@, 0) == Some(DeriveSet::PlainData),
{
    assert(allowlist_entry_spec(0).0 != "avifUnsignedFraction"@) by {
        reveal_strlit("avifPlanesFlag");
        reveal_strlit("avifUnsignedFraction");
        assert("avifPlanesFlag"@.len() != "avifUnsignedFraction"@.len());
    }
    lemma_lookup_step("avifUnsignedFraction"@, 0);
    assert(allowlist_entry_spec(1).0 != "avifUnsignedFraction"@) by {
        reveal_strlit("avifChannelIndex");
        reveal_strlit("avifUnsignedFraction");
        assert("avifChannelIndex"@.len() != "avifUnsignedFraction"@.len());
    }
    lemma_lookup_step("avifUnsignedFraction"@, 1);
    assert(allowlist_entry_spec(2).0 != "avifUnsignedFraction"@) by {
        reveal_strlit("avifResult");
        reveal_strlit("avifUnsignedFraction");
        assert("avifResult"@.len() != "avifUnsignedFraction"@.len());
    }
    lemma_lookup_step("avifUnsignedFraction"@, 2);
    assert(allowlist_entry_spec(3).0 != "avifUnsignedFraction"@) by {
        reveal_strlit("avifHeaderFormat");
        reveal_strlit("avifUnsignedFraction");
        assert("avifHeaderFormat"@.len() != "avifUnsignedFraction"@.len());
    }
    lemma_lookup_step("avifUnsignedFraction"@, 3);
    assert(allowlist_entry_spec(4).0 != "avifUnsignedFraction"@) by {
        reveal_strlit("avifPixelFormat");
        reveal_strlit("avifUnsignedFraction");
        assert("avifPixelFormat"@.len() != "avifUnsignedFraction"@.len());
    }
    lemma_lookup_step("avifUnsignedFraction"@, 4);
    assert(allowlist_entry_spec(5).0 != "avifUnsignedFraction"@) by {
        reveal_strlit("avifChromaSamplePosition");
        reveal_strlit("avifUnsignedFraction");
        assert("avifChromaSamplePosition"@.len() != "avifUnsignedFraction"@.len());
    }
    lemma_lookup_step("avifUnsignedFraction"@, 5);
    assert(allowlist_entry_spec(6).0 != "avifUnsignedFraction"@) by {
        reveal_strlit("avifRange");
        reveal_strlit("avifUnsignedFraction");
        assert("avifRange"@.len() != "avifUnsignedFraction"@.len());
    }
    lemma_lookup_step("avifUnsignedFraction"@, 6);
    assert(allowlist_entry_spec(7).0 != "avifUnsignedFraction"@) by {
        reveal_strlit("avifTransformFlag");
        reveal_strlit("avifUnsignedFraction");
        assert("avifTransformFlag"@.len() != "avifUnsignedFraction"@.len());
    }
    lemma_lookup_step("avifUnsignedFraction"@, 7);
    assert(allowlist_entry_spec(8).0 != "avifUnsignedFraction"@) by {
        reveal_strlit("avifSampleTransformRecipe");
        reveal_strlit("avifUnsignedFraction");
        assert("avifSampleTransformRecipe"@.len() != "avifUnsignedFraction"@.len());
    }
    lemma_lookup_step("avifUnsignedFraction"@, 8);
    assert(allowlist_entry_spec(9).0 != "avifUnsignedFraction"@) by {
        reveal_strlit("avifRGBFormat");
        reveal_strlit("avifUnsignedFraction");
        assert("avifRGBFormat"@.len() != "avifUnsignedFraction"@.len());
    }
    lemma_lookup_step("avifUnsignedFraction"@, 9);
    assert(allowlist_entry_spec(10).0 != "avifUnsignedFraction"@) by {
        reveal_strlit("avifChromaUpsampling");
        reveal_strlit("avifUnsignedFraction");
        assert("avifChromaUpsampling"@[4] != "avifUnsignedFraction"@[4]);
    }
    lemma_lookup_step("avifUnsignedFraction"@, 10);
    assert(allowlist_entry_spec(11).0 != "avifUnsignedFraction"@) by {
        reveal_strlit("avifChromaDownsampling");
        reveal_strlit("avifUnsignedFraction");
        assert("avifChromaDownsampling"@.len() != "avifUnsignedFraction"@.len());
    }
    lemma_lookup_step("avifUnsignedFraction"@, 11);
    assert(allowlist_entry_spec(12).0 != "avifUnsignedFraction"@) by {
        reveal_strlit("avifCodecChoice");
        reveal_strlit("avifUnsignedFraction");
        assert("avifCodecChoice"@.len() != "avifUnsignedFraction"@.len());
    }
    lemma_lookup_step("avifUnsignedFraction"@, 12);
    assert(allowlist_entry_spec(13).0 != "avifUnsignedFraction"@) by {
        reveal_strlit("avifCodecFlag");
        reveal_strlit("avifUnsignedFraction");
        assert("avifCodecFlag"@.len() != "avifUnsignedFraction"@.len());
    }
    lemma_lookup_step("avifUnsignedFraction"@, 13);
    assert(allowlist_entry_spec(14).0 != "avifUnsignedFraction"@) by {
        reveal_strlit("avifStrictFlag");
        reveal_strlit("avifUnsignedFraction");
        assert("avifStrictFlag"@.len() != "avifUnsignedFraction"@.len());
    }
    lemma_lookup_step("avifUnsignedFraction"@, 14);
    assert(allowlist_entry_spec(15).0 != "avifUnsignedFraction"@) by {
        reveal_strlit("avifDecoderSource");
        reveal_strlit("avifUnsignedFraction");
        assert("avifDecoderSource"@.len() != "avifUnsignedFraction"@.len());
    }
    lemma_lookup_step("avifUnsignedFraction"@, 15);
    assert(allowlist_entry_spec(16).0 != "avifUnsignedFraction"@) by {
        reveal_strlit("avifProgressiveState");
        reveal_strlit("avifUnsignedFraction");
        assert("avifProgressiveState"@[4] != "avifUnsignedFraction"@[4]);
    }
    lemma_lookup_step("avifUnsignedFraction"@, 16);
    assert(allowlist_entry_spec(17).0 != "avifUnsignedFraction"@) by {
        reveal_strlit("avifImageContentTypeFlag");
        reveal_strlit("avifUnsignedFraction");
        assert("avifImageContentTypeFlag"@.len() != "avifUnsignedFraction"@.len());
    }
    lemma_lookup_step("avifUnsignedFraction"@, 17);
    assert(allowlist_entry_spec(18).0 != "avifUnsignedFraction"@) by {
        reveal_strlit("avifAddImageFlag");
        reveal_strlit("avifUnsignedFraction");
        assert("avifAddImageFlag"@.len() != "avifUnsignedFraction"@.len());
    }
    lemma_lookup_step("avifUnsignedFraction"@, 18);
    assert(allowlist_entry_spec(19).0 != "avifUnsignedFraction"@) by {
        reveal_strlit("avifPixelFormatInfo");
        reveal_strlit("avifUnsignedFraction");
        assert("avifPixelFormatInfo"@.len() != "avifUnsignedFraction"@.len());
    }
    lemma_lookup_step("avifUnsignedFraction"@, 19);
    assert(allowlist_entry_spec(20).0 != "avifUnsignedFraction"@) by {
        reveal_strlit("avifDiagnostics");
        reveal_strlit("avifUnsignedFraction");
        assert("avifDiagnostics"@.len() != "avifUnsignedFraction"@.len());
    }
    lemma_lookup_step("avifUnsignedFraction"@, 20);
    assert(allowlist_entry_spec(21).0 != "avifUnsignedFraction"@) by {
        reveal_strlit("avifFraction");
        reveal_strlit("avifUnsignedFraction");
        assert("avifFraction"@.len() != "avifUnsignedFraction"@.len());
    }
    lemma_lookup_step("avifUnsignedFraction"@, 21);
    assert(allowlist_entry_spec(22).0 != "avifUnsignedFraction"@) by {
        reveal_strlit("avifSignedFraction");
        reveal_strlit("avifUnsignedFraction");
        assert("avifSignedFraction"@.len() != "avifUnsignedFraction"@.len());
    }
    lemma_lookup_step("avifUnsignedFraction"@, 22);
}

/// The lookup finds `avifPixelAspectRatioBox` at its entry.
proof fn lemma_lookup_pixel_aspect_ratio_box()
    ensures
        allowlisted_from("avifPixelAspectRatioBox"@, 0) == Some(DeriveSet::PlainData),
{
    assert(allowlist_entry_spec(0).0 != "avifPixelAspectRatioBox"@) by {
        reveal_strlit("avifPlanesFlag");
        reveal_strlit("avifPixelAspectRatioBox");
        assert("avifPlanesFlag"@.len() != "avifPixelAspectRatioBox"@.len());
    }
    lemma_lookup_step("avifPixelAspectRatioBox"@, 0);
    assert(allowlist_entry_spec(1).0 != "avifPixelAspectRatioBox"@) by {
        reveal_strlit("avifChannelIndex");
        reveal_strlit("avifPixelAspectRatioBox");
        assert("avifChannelIndex"@.len() != "avifPixelAspectRatioBox"@.len());
    }
    lemma_lookup_step("avifPixelAspectRatioBox"@, 1);
    assert(allowlist_entry_spec(2).0 != "avifPixelAspectRatioBox"@) by {
        reveal_strlit("avifResult");
        reveal_strlit("avifPixelAspectRatioBox");
        assert("avifResult"@.len() != "avifPixelAspectRatioBox"@.len());
    }
    lemma_lookup_step("avifPixelAspectRatioBox"@, 2);
    assert(allowlist_entry_spec(3).0 != "avifPixelAspectRatioBox"@) by {
        reveal_strlit("avifHeaderFormat");
        reveal_strlit("avifPixelAspectRatioBox");
        assert("avifHeaderFormat"@.len() != "avifPixelAspectRatioBox"@.len());
    }
    lemma_lookup_step("avifPixelAspectRatioBox"@, 3);
    assert(allowlist_entry_spec(4).0 != "avifPixelAspectRatioBox"@) by {
        reveal_strlit("avifPixelFormat");
        reveal_strlit("avifPixelAspectRatioBox");
        assert("avifPixelFormat"@.len() != "avifPixelAspectRatioBox"@.len());
    }
    lemma_lookup_step("avifPixelAspectRatioBox"@, 4);
    assert(allowlist_entry_spec(5).0 != "avifPixelAspectRatioBox"@) by {
        reveal_strlit("avifChromaSamplePosition");
        reveal_strlit("avifPixelAspectRatioBox");
        assert("avifChromaSamplePosition"@.len() != "avifPixelAspectRatioBox"@.len());
    }
    lemma_lookup_step("avifPixelAspectRatioBox"@, 5);
    assert(allowlist_entry_spec(6).0 != "avifPixelAspectRatioBox"@) by {
        reveal_strlit("avifRange");
        reveal_strlit("avifPixelAspectRatioBox");
        assert("avifRange"@.len() != "avifPixelAspectRatioBox"@.len());
    }
    lemma_lookup_step("avifPixelAspectRatioBox"@, 6);
    assert(allowlist_entry_spec(7).0 != "avifPixelAspectRatioBox"@) by {
        reveal_strlit("avifTransformFlag");
        reveal_strlit("avifPixelAspectRatioBox");
        assert("avifTransformFlag"@.len() != "avifPixelAspectRatioBox"@.len());
    }
    lemma_lookup_step("avifPixelAspectRatioBox"@, 7);
    assert(allowlist_entry_spec(8).0 != "avifPixelAspectRatioBox"@) by {
        reveal_strlit("avifSampleTransformRecipe");
        reveal_strlit("avifPixelAspectRatioBox");
        assert("avifSampleTransformRecipe"@.len() != "avifPixelAspectRatioBox"@.len());
    }
    lemma_lookup_step("avifPixelAspectRatioBox"@, 8);
    assert(allowlist_entry_spec(9).0 != "avifPixelAspectRatioBox"@) by {
        reveal_strlit("avifRGBFormat");
        reveal_strlit("avifPixelAspectRatioBox");
        assert("avifRGBFormat"@.len() != "avifPixelAspectRatioBox"@.len());
    }
    lemma_lookup_step("avifPixelAspectRatioBox"@, 9);
    assert(allowlist_entry_spec(10).0 != "avifPixelAspectRatioBox"@) by {
        reveal_strlit("avifChromaUpsampling");
        reveal_strlit("avifPixelAspectRatioBox");
        assert("avifChromaUpsampling"@.len() != "avifPixelAspectRatioBox"@.len());
    }
    lemma_lookup_step("avifPixelAspectRatioBox"@, 10);
    assert(allowlist_entry_spec(11).0 != "avifPixelAspectRatioBox"@) by {
        reveal_strlit("avifChromaDownsampling");
        reveal_strlit("avifPixelAspectRatioBox");
        assert("avifChromaDownsampling"@.len() != "avifPixelAspectRatioBox"@.len());
    }
    lemma_lookup_step("avifPixelAspectRatioBox"@, 11);
    assert(allowlist_entry_spec(12).0 != "avifPixelAspectRatioBox"@) by {
        reveal_strlit("avifCodecChoice");
        reveal_strlit("avifPixelAspectRatioBox");
        assert("avifCodecChoice"@.len() != "avifPixelAspectRatioBox"@.len());
    }
    lemma_lookup_step("avifPixelAspectRatioBox"@, 12);
    assert(allowlist_entry_spec(13).0 != "avifPixelAspectRatioBox"@) by {
        reveal_strlit("avifCodecFlag");
        reveal_strlit("avifPixelAspectRatioBox");
        assert("avifCodecFlag"@.len() != "avifPixelAspectRatioBox"@.len());
    }
    lemma_lookup_step("avifPixelAspectRatioBox"@, 13);
    assert(allowlist_entry_spec(14).0 != "avifPixelAspectRatioBox"@) by {
        reveal_strlit("avifStrictFlag");
        reveal_strlit("avifPixelAspectRatioBox");
        assert("avifStrictFlag"@.len() != "avifPixelAspectRatioBox"@.len());
    }
    lemma_lookup_step("avifPixelAspectRatioBox"@, 14);
    assert(allowlist_entry_spec(15).0 != "avifPixelAspectRatioBox"@) by {
        reveal_strlit("avifDecoderSource");
        reveal_strlit("avifPixelAspectRatioBox");
        assert("avifDecoderSource"@.len() != "avifPixelAspectRatioBox"@.len());
    }
    lemma_lookup_step("avifPixelAspectRatioBox"@, 15);
    assert(allowlist_entry_spec(16).0 != "avifPixelAspectRatioBox"@) by {
        reveal_strlit("avifProgressiveState");
        reveal_strlit("avifPixelAspectRatioBox");
        assert("avifProgressiveState"@.len() != "avifPixelAspectRatioBox"@.len());
    }
    lemma_lookup_step("avifPixelAspectRatioBox"@, 16);
    assert(allowlist_entry_spec(17).0 != "avifPixelAspectRatioBox"@) by {
        reveal_strlit("avifImageContentTypeFlag");
        reveal_strlit("avifPixelAspectRatioBox");
        assert("avifImageContentTypeFlag"@.len() != "avifPixelAspectRatioBox"@.len());
    }
    lemma_lookup_step("avifPixelAspectRatioBox"@, 17);
    assert(allowlist_entry_spec(18).0 != "avifPixelAspectRatioBox"@) by {
        reveal_strlit("avifAddImageFlag");
        reveal_strlit("avifPixelAspectRatioBox");
        assert("avifAddImageFlag"@.len() != "avifPixelAspectRatioBox"@.len());
    }
    lemma_lookup_step("avifPixelAspectRatioBox"@, 18);
    assert(allowlist_entry_spec(19).0 != "avifPixelAspectRatioBox"@) by {
        reveal_strlit("avifPixelFormatInfo");
        reveal_strlit("avifPixelAspectRatioBox");
        assert("avifPixelFormatInfo"@.len() != "avifPixelAspectRatioBox"@.len());
    }
    lemma_lookup_step("avifPixelAspectRatioBox"@, 19);
    assert(allowlist_entry_spec(20).0 != "avifPixelAspectRatioBox"@) by {
        reveal_strlit("avifDiagnostics");
        reveal_strlit("avifPixelAspectRatioBox");
        assert("avifDiagnostics"@.len() != "avifPixelAspectRatioBox"@.len());
    }
    lemma_lookup_step("avifPixelAspectRatioBox"@, 20);
    assert(allowlist_entry_spec(21).0 != "avifPixelAspectRatioBox"@) by {
        reveal_strlit("avifFraction");
        reveal_strlit("avifPixelAspectRatioBox");
        assert("avifFraction"@.len() != "avifPixelAspectRatioBox"@.len());
    }
    lemma_lookup_step("avifPixelAspectRatioBox"@, 21);
    assert(allowlist_entry_spec(22).0 != "avifPixelAspectRatioBox"@) by {
        reveal_strlit("avifSignedFraction");
        reveal_strlit("avifPixelAspectRatioBox");
        assert("avifSignedFraction"@.len() != "avifPixelAspectRatioBox"@.len());
    }
    lemma_lookup_step("avifPixelAspectRatioBox"@, 22);
    assert(allowlist_entry_spec(23).0 != "avifPixelAspectRatioBox"@) by {
        reveal_strlit("avifUnsignedFraction");
        reveal_strlit("avifPixelAspectRatioBox");
        assert("avifUnsignedFraction"@.len() != "avifPixelAspectRatioBox"@.len());
    }
    lemma_lookup_step("avifPixelAspectRatioBox"@, 23);
}

/// The lookup finds `avifCleanApertureBox` at its entry.
proof fn lemma_lookup_clean_aperture_box()
    ensures
        allowlisted_from("avifCleanApertureBox"@, 0) == Some(DeriveSet::PlainData),
{
    assert(allowlist_entry_spec(0).0 != "avifCleanApertureBox"@) by {
        reveal_strlit("avifPlanesFlag");
        reveal_strlit("avifCleanApertureBox");
        assert("avifPlanesFlag"@.len() != "avifCleanApertureBox"@.len());
    }
    lemma_lookup_step("avifCleanApertureBox"@, 0);
    assert(allowlist_entry_spec(1).0 != "avifCleanApertureBox"@) by {
        reveal_strlit("avifChannelIndex");
        reveal_strlit("avifCleanApertureBox");
        assert("avifChannelIndex"@.len() != "avifCleanApertureBox"@.len());
    }
    lemma_lookup_step("avifCleanApertureBox"@, 1);
    assert(allowlist_entry_spec(2).0 != "avifCleanApertureBox"@) by {
        reveal_strlit("avifResult");
        reveal_strlit("avifCleanApertureBox");
        assert("avifResult"@.len() != "avifCleanApertureBox"@.len());
    }
    lemma_lookup_step("avifCleanApertureBox"@, 2);
    assert(allowlist_entry_spec(3).0 != "avifCleanApertureBox"@) by {
        reveal_strlit("avifHeaderFormat");
        reveal_strlit("avifCleanApertureBox");
        assert("avifHeaderFormat"@.len() != "avifCleanApertureBox"@.len());
    }
    lemma_lookup_step("avifCleanApertureBox"@, 3);
    assert(allowlist_entry_spec(4).0 != "avifCleanApertureBox"@) by {
        reveal_strlit("avifPixelFormat");
        reveal_strlit("avifCleanApertureBox");
        assert("avifPixelFormat"@.len() != "avifCleanApertureBox"@.len());
    }
    lemma_lookup_step("avifCleanApertureBox"@, 4);
    assert(allowlist_entry_spec(5).0 != "avifCleanApertureBox"@) by {
        reveal_strlit("avifChromaSamplePosition");
        reveal_strlit("avifCleanApertureBox");
        assert("avifChromaSamplePosition"@.len() != "avifCleanApertureBox"@.len());
    }
    lemma_lookup_step("avifCleanApertureBox"@, 5);
    assert(allowlist_entry_spec(6).0 != "avifCleanApertureBox"@) by {
        reveal_strlit("avifRange");
        reveal_strlit("avifCleanApertureBox");
        assert("avifRange"@.len() != "avifCleanApertureBox"@.len());
    }
    lemma_lookup_step("avifCleanApertureBox"@, 6);
    assert(allowlist_entry_spec(7).0 != "avifCleanApertureBox"@) by {
        reveal_strlit("avifTransformFlag");
        reveal_strlit("avifCleanApertureBox");
        assert("avifTransformFlag"@.len() != "avifCleanApertureBox"@.len());
    }
    lemma_lookup_step("avifCleanApertureBox"@, 7);
    assert(allowlist_entry_spec(8).0 != "avifCleanApertureBox"@) by {
        reveal_strlit("avifSampleTransformRecipe");
        reveal_strlit("avifCleanApertureBox");
        assert("avifSampleTransformRecipe"@.len() != "avifCleanApertureBox"@.len());
    }
    lemma_lookup_step("avifCleanApertureBox"@, 8);
    assert(allowlist_entry_spec(9).0 != "avifCleanApertureBox"@) by {
        reveal_strlit("avifRGBFormat");
        reveal_strlit("avifCleanApertureBox");
        assert("avifRGBFormat"@.len() != "avifCleanApertureBox"@.len());
    }
    lemma_lookup_step("avifCleanApertureBox"@, 9);
    assert(allowlist_entry_spec(10).0 != "avifCleanApertureBox"@) by {
        reveal_strlit("avifChromaUpsampling");
        reveal_strlit("avifCleanApertureBox");
        assert("avifChromaUpsampling"@[5] != "avifCleanApertureBox"@[5]);
    }
    lemma_lookup_step("avifCleanApertureBox"@, 10);
    assert(allowlist_entry_spec(11).0 != "avifCleanApertureBox"@) by {
        reveal_strlit("avifChromaDownsampling");
        reveal_strlit("avifCleanApertureBox");
        assert("avifChromaDownsampling"@.len() != "avifCleanApertureBox"@.len());
    }
    lemma_lookup_step("avifCleanApertureBox"@, 11);
    assert(allowlist_entry_spec(12).0 != "avifCleanApertureBox"@) by {
        reveal_strlit("avifCodecChoice");
        reveal_strlit("avifCleanApertureBox");
        assert("avifCodecChoice"@.len() != "avifCleanApertureBox"@.len());
    }
    lemma_lookup_step("avifCleanApertureBox"@, 12);
    assert(allowlist_entry_spec(13).0 != "avifCleanApertureBox"@) by {
        reveal_strlit("avifCodecFlag");
        reveal_strlit("avifCleanApertureBox");
        assert("avifCodecFlag"@.len() != "avifCleanApertureBox"@.len());
    }
    lemma_lookup_step("avifCleanApertureBox"@, 13);
    assert(allowlist_entry_spec(14).0 != "avifCleanApertureBox"@) by {
        reveal_strlit("avifStrictFlag");
        reveal_strlit("avifCleanApertureBox");
        assert("avifStrictFlag"@.len() != "avifCleanApertureBox"@.len());
    }
    lemma_lookup_step("avifCleanApertureBox"@, 14);
    assert(allowlist_entry_spec(15).0 != "avifCleanApertureBox"@) by {
        reveal_strlit("avifDecoderSource");
        reveal_strlit("avifCleanApertureBox");
        assert("avifDecoderSource"@.len() != "avifCleanApertureBox"@.len());
    }
    lemma_lookup_step("avifCleanApertureBox"@, 15);
    assert(allowlist_entry_spec(16).0 != "avifCleanApertureBox"@) by {
        reveal_strlit("avifProgressiveState");
        reveal_strlit("avifCleanApertureBox");
        assert("avifProgressiveState"@[4] != "avifCleanApertureBox"@[4]);
    }
    lemma_lookup_step("avifCleanApertureBox"@, 16);
    assert(allowlist_entry_spec(17).0 != "avifCleanApertureBox"@) by {
        reveal_strlit("avifImageContentTypeFlag");
        reveal_strlit("avifCleanApertureBox");
        assert("avifImageContentTypeFlag"@.len() != "avifCleanApertureBox"@.len());
    }
    lemma_lookup_step("avifCleanApertureBox"@, 17);
    assert(allowlist_entry_spec(18).0 != "avifCleanApertureBox"@) by {
        reveal_strlit("avifAddImageFlag");
        reveal_strlit("avifCleanApertureBox");
        assert("avifAddImageFlag"@.len() != "avifCleanApertureBox"@.len());
    }
    lemma_lookup_step("avifCleanApertureBox"@, 18);
    assert(allowlist_entry_spec(19).0 != "avifCleanApertureBox"@) by {
        reveal_strlit("avifPixelFormatInfo");
        reveal_strlit("avifCleanApertureBox");
        assert("avifPixelFormatInfo"@.len() != "avifCleanApertureBox"@.len());
    }
    lemma_lookup_step("avifCleanApertureBox"@, 19);
    assert(allowlist_entry_spec(20).0 != "avifCleanApertureBox"@) by {
        reveal_strlit("avifDiagnostics");
        reveal_strlit("avifCleanApertureBox");
        assert("avifDiagnostics"@.len() != "avifCleanApertureBox"@.len());
    }
    lemma_lookup_step("avifCleanApertureBox"@, 20);
    assert(allowlist_entry_spec(21).0 != "avifCleanApertureBox"@) by {
        reveal_strlit("avifFraction");
        reveal_strlit("avifCleanApertureBox");
        assert("avifFraction"@.len() != "avifCleanApertureBox"@.len());
    }
    lemma_lookup_step("avifCleanApertureBox"@, 21);
    assert(allowlist_entry_spec(22).0 != "avifCleanApertureBox"@) by {
        reveal_strlit("avifSignedFraction");
        reveal_strlit("avifCleanApertureBox");
        assert("avifSignedFraction"@.len() != "avifCleanApertureBox"@.len());
    }
    lemma_lookup_step("avifCleanApertureBox"@, 22);
    assert(allowlist_entry_spec(23).0 != "avifCleanApertureBox"@) by {
        reveal_strlit("avifUnsignedFraction");
        reveal_strlit("avifCleanApertureBox");
        assert("avifUnsignedFraction"@[4] != "avifCleanApertureBox"@[4]);
    }
    lemma_lookup_step("avifCleanApertureBox"@, 23);
    assert(allowlist_entry_spec(24).0 != "avifCleanApertureBox"@) by {
        reveal_strlit("avifPixelAspectRatioBox");
        reveal_strlit("avifCleanApertureBox");
        assert("avifPixelAspectRatioBox"@.len() != "avifCleanApertureBox"@.len());
    }
    lemma_lookup_step("avifCleanApertureBox"@, 24);
}

/// The lookup finds `avifImageRotation` at its entry.
proof fn lemma_lookup_image_rotation()
    ensures
        allowlisted_from("avifImageRotation"@, 0) == Some(DeriveSet::PlainData),
{
    assert(allowlist_entry_spec(0).0 != "avifImageRotation"@) by {
        reveal_strlit("avifPlanesFlag");
        reveal_strlit("avifImageRotation");
        assert("avifPlanesFlag"@.len() != "avifImageRotation"@.len());
    }
    lemma_lookup_step("avifImageRotation"@, 0);
    assert(allowlist_entry_spec(1).0 != "avifImageRotation"@) by {
        reveal_strlit("avifChannelIndex");
        reveal_strlit("avifImageRotation");
        assert("avifChannelIndex"@.len() != "avifImageRotation"@.len());
    }
    lemma_lookup_step("avifImageRotation"@, 1);
    assert(allowlist_entry_spec(2).0 != "avifImageRotation"@) by {
        reveal_strlit("avifResult");
        reveal_strlit("avifImageRotation");
        assert("avifResult"@.len() != "avifImageRotation"@.len());
    }
    lemma_lookup_step("avifImageRotation"@, 2);
    assert(allowlist_entry_spec(3).0 != "avifImageRotation"@) by {
        reveal_strlit("avifHeaderFormat");
        reveal_strlit("avifImageRotation");
        assert("avifHeaderFormat"@.len() != "avifImageRotation"@.len());
    }
    lemma_lookup_step("avifImageRotation"@, 3);
    assert(allowlist_entry_spec(4).0 != "avifImageRotation"@) by {
        reveal_strlit("avifPixelFormat");
        reveal_strlit("avifImageRotation");
        assert("avifPixelFormat"@.len() != "avifImageRotation"@.len());
    }
    lemma_lookup_step("avifImageRotation"@, 4);
    assert(allowlist_entry_spec(5).0 != "avifImageRotation"@) by {
        reveal_strlit("avifChromaSamplePosition");
        reveal_strlit("avifImageRotation");
        assert("avifChromaSamplePosition"@.len() != "avifImageRotation"@.len());
    }
    lemma_lookup_step("avifImageRotation"@, 5);
    assert(allowlist_entry_spec(6).0 != "avifImageRotation"@) by {
        reveal_strlit("avifRange");
        reveal_strlit("avifImageRotation");
        assert("avifRange"@.len() != "avifImageRotation"@.len());
    }
    lemma_lookup_step("avifImageRotation"@, 6);
    assert(allowlist_entry_spec(7).0 != "avifImageRotation"@) by {
        reveal_strlit("avifTransformFlag");
        reveal_strlit("avifImageRotation");
        assert("avifTransformFlag"@[4] != "avifImageRotation"@[4]);
    }
    lemma_lookup_step("avifImageRotation"@, 7);
    assert(allowlist_entry_spec(8).0 != "avifImageRotation"@) by {
        reveal_strlit("avifSampleTransformRecipe");
        reveal_strlit("avifImageRotation");
        assert("avifSampleTransformRecipe"@.len() != "avifImageRotation"@.len());
    }
    lemma_lookup_step("avifImageRotation"@, 8);
    assert(allowlist_entry_spec(9).0 != "avifImageRotation"@) by {
        reveal_strlit("avifRGBFormat");
        reveal_strlit("avifImageRotation");
        assert("avifRGBFormat"@.len() != "avifImageRotation"@.len());
    }
    lemma_lookup_step("avifImageRotation"@, 9);
    assert(allowlist_entry_spec(10).0 != "avifImageRotation"@) by {
        reveal_strlit("avifChromaUpsampling");
        reveal_strlit("avifImageRotation");
        assert("avifChromaUpsampling"@.len() != "avifImageRotation"@.len());
    }
    lemma_lookup_step("avifImageRotation"@, 10);
    assert(allowlist_entry_spec(11).0 != "avifImageRotation"@) by {
        reveal_strlit("avifChromaDownsampling");
        reveal_strlit("avifImageRotation");
        assert("avifChromaDownsampling"@.len() != "avifImageRotation"@.len());
    }
    lemma_lookup_step("avifImageRotation"@, 11);
    assert(allowlist_entry_spec(12).0 != "avifImageRotation"@) by {
        reveal_strlit("avifCodecChoice");
        reveal_strlit("avifImageRotation");
        assert("avifCodecChoice"@.len() != "avifImageRotation"@.len());
    }
    lemma_lookup_step("avifImageRotation"@, 12);
    assert(allowlist_entry_spec(13).0 != "avifImageRotation"@) by {
        reveal_strlit("avifCodecFlag");
        reveal_strlit("avifImageRotation");
        assert("avifCodecFlag"@.len() != "avifImageRotation"@.len());
    }
    lemma_lookup_step("avifImageRotation"@, 13);
    assert(allowlist_entry_spec(14).0 != "avifImageRotation"@) by {
        reveal_strlit("avifStrictFlag");
        reveal_strlit("avifImageRotation");
        assert("avifStrictFlag"@.len() != "avifImageRotation"@.len());
    }
    lemma_lookup_step("avifImageRotation"@, 14);
    assert(allowlist_entry_spec(15).0 != "avifImageRotation"@) by {
        reveal_strlit("avifDecoderSource");
        reveal_strlit("avifImageRotation");
        assert("avifDecoderSource"@[4] != "avifImageRotation"@[4]);
    }
    lemma_lookup_step("avifImageRotation"@, 15);
    assert(allowlist_entry_spec(16).0 != "avifImageRotation"@) by {
        reveal_strlit("avifProgressiveState");
        reveal_strlit("avifImageRotation");
        assert("avifProgressiveState"@.len() != "avifImageRotation"@.len());
    }
    lemma_lookup_step("avifImageRotation"@, 16);
    assert(allowlist_entry_spec(17).0 != "avifImageRotation"@) by {
        reveal_strlit("avifImageContentTypeFlag");
        reveal_strlit("avifImageRotation");
        assert("avifImageContentTypeFlag"@.len() != "avifImageRotation"@.len());
    }
    lemma_lookup_step("avifImageRotation"@, 17);
    assert(allowlist_entry_spec(18).0 != "avifImageRotation"@) by {
        reveal_strlit("avifAddImageFlag");
        reveal_strlit("avifImageRotation");
        assert("avifAddImageFlag"@.len() != "avifImageRotation"@.len());
    }
    lemma_lookup_step("avifImageRotation"@, 18);
    assert(allowlist_entry_spec(19).0 != "avifImageRotation"@) by {
        reveal_strlit("avifPixelFormatInfo");
        reveal_strlit("avifImageRotation");
        assert("avifPixelFormatInfo"@.len() != "avifImageRotation"@.len());
    }
    lemma_lookup_step("avifImageRotation"@, 19);
    assert(allowlist_entry_spec(20).0 != "avifImageRotation"@) by {
        reveal_strlit("avifDiagnostics");
        reveal_strlit("avifImageRotation");
        assert("avifDiagnostics"@.len() != "avifImageRotation"@.len());
    }
    lemma_lookup_step("avifImageRotation"@, 20);
    assert(allowlist_entry_spec(21).0 != "avifImageRotation"@) by {
        reveal_strlit("avifFraction");
        reveal_strlit("avifImageRotation");
        assert("avifFraction"@.len() != "avifImageRotation"@.len());
    }
    lemma_lookup_step("avifImageRotation"@, 21);
    assert(allowlist_entry_spec(22).0 != "avifImageRotation"@) by {
        reveal_strlit("avifSignedFraction");
        reveal_strlit("avifImageRotation");
        assert("avifSignedFraction"@.len() != "avifImageRotation"@.len());
    }
    lemma_lookup_step("avifImageRotation"@, 22);
    assert(allowlist_entry_spec(23).0 != "avifImageRotation"@) by {
        reveal_strlit("avifUnsignedFraction");
        reveal_strlit("avifImageRotation");
        assert("avifUnsignedFraction"@.len() != "avifImageRotation"@.len());
    }
    lemma_lookup_step("avifImageRotation"@, 23);
    assert(allowlist_entry_spec(24).0 != "avifImageRotation"@) by {
        reveal_strlit("avifPixelAspectRatioBox");
        reveal_strlit("avifImageRotation");
        assert("avifPixelAspectRatioBox"@.len() != "avifImageRotation"@.len());
    }
    lemma_lookup_step("avifImageRotation"@, 24);
    assert(allowlist_entry_spec(25).0 != "avifImageRotation"@) by {
        reveal_strlit("avifCleanApertureBox");
        reveal_strlit("avifImageRotation");
        assert("avifCleanApertureBox"@.len() != "avifImageRotation"@.len());
    }
    lemma_lookup_step("avifImageRotation"@, 25);
}

/// The lookup finds `avifImageMirror` at its entry.
proof fn lemma_lookup_image_mirror()
    ensures
        allowlisted_from("avifImageMirror"@, 0) == Some(DeriveSet::PlainData),
{
    assert(allowlist_entry_spec(0).0 != "avifImageMirror"@) by {
        reveal_strlit("avifPlanesFlag");
        reveal_strlit("avifImageMirror");
        assert("avifPlanesFlag"@.len() != "avifImageMirror"@.len());
    }
    lemma_lookup_step("avifImageMirror"@, 0);
    assert(allowlist_entry_spec(1).0 != "avifImageMirror"@) by {
        reveal_strlit("avifChannelIndex");
        reveal_strlit("avifImageMirror");
        assert("avifChannelIndex"@.len() != "avifImageMirror"@.len());
    }
    lemma_lookup_step("avifImageMirror"@, 1);
    assert(allowlist_entry_spec(2).0 != "avifImageMirror"@) by {
        reveal_strlit("avifResult");
        reveal_strlit("avifImageMirror");
        assert("avifResult"@.len() != "avifImageMirror"@.len());
    }
    lemma_lookup_step("avifImageMirror"@, 2);
    assert(allowlist_entry_spec(3).0 != "avifImageMirror"@) by {
        reveal_strlit("avifHeaderFormat");
        reveal_strlit("avifImageMirror");
        assert("avifHeaderFormat"@.len() != "avifImageMirror"@.len());
    }
    lemma_lookup_step("avifImageMirror"@, 3);
    assert(allowlist_entry_spec(4).0 != "avifImageMirror"@) by {
        reveal_strlit("avifPixelFormat");
        reveal_strlit("avifImageMirror");
        assert("avifPixelFormat"@[4] != "avifImageMirror"@[4]);
    }
    lemma_lookup_step("avifImageMirror"@, 4);
    assert(allowlist_entry_spec(5).0 != "avifImageMirror"@) by {
        reveal_strlit("avifChromaSamplePosition");
        reveal_strlit("avifImageMirror");
        assert("avifChromaSamplePosition"@.len() != "avifImageMirror"@.len());
    }
    lemma_lookup_step("avifImageMirror"@, 5);
    assert(allowlist_entry_spec(6).0 != "avifImageMirror"@) by {
        reveal_strlit("avifRange");
        reveal_strlit("avifImageMirror");
        assert("avifRange"@.len() != "avifImageMirror"@.len());
    }
    lemma_lookup_step("avifImageMirror"@, 6);
    assert(allowlist_entry_spec(7).0 != "avifImageMirror"@) by {
        reveal_strlit("avifTransformFlag");
        reveal_strlit("avifImageMirror");
        assert("avifTransformFlag"@.len() != "avifImageMirror"@.len());
    }
    lemma_lookup_step("avifImageMirror"@, 7);
    assert(allowlist_entry_spec(8).0 != "avifImageMirror"@) by {
        reveal_strlit("avifSampleTransformRecipe");
        reveal_strlit("avifImageMirror");
        assert("avifSampleTransformRecipe"@.len() != "avifImageMirror"@.len());
    }
    lemma_lookup_step("avifImageMirror"@, 8);
    assert(allowlist_entry_spec(9).0 != "avifImageMirror"@) by {
        reveal_strlit("avifRGBFormat");
        reveal_strlit("avifImageMirror");
        assert("avifRGBFormat"@.len() != "avifImageMirror"@.len());
    }
    lemma_lookup_step("avifImageMirror"@, 9);
    assert(allowlist_entry_spec(10).0 != "avifImageMirror"@) by {
        reveal_strlit("avifChromaUpsampling");
        reveal_strlit("avifImageMirror");
        assert("avifChromaUpsampling"@.len() != "avifImageMirror"@.len());
    }
    lemma_lookup_step("avifImageMirror"@, 10);
    assert(allowlist_entry_spec(11).0 != "avifImageMirror"@) by {
        reveal_strlit("avifChromaDownsampling");
        reveal_strlit("avifImageMirror");
        assert("avifChromaDownsampling"@.len() != "avifImageMirror"@.len());
    }
    lemma_lookup_step("avifImageMirror"@, 11);
    assert(allowlist_entry_spec(12).0 != "avifImageMirror"@) by {
        reveal_strlit("avifCodecChoice");
        reveal_strlit("avifImageMirror");
        assert("avifCodecChoice"@[4] != "avifImageMirror"@[4]);
    }
    lemma_lookup_step("avifImageMirror"@, 12);
    assert(allowlist_entry_spec(13).0 != "avifImageMirror"@) by {
        reveal_strlit("avifCodecFlag");
        reveal_strlit("avifImageMirror");
        assert("avifCodecFlag"@.len() != "avifImageMirror"@.len());
    }
    lemma_lookup_step("avifImageMirror"@, 13);
    assert(allowlist_entry_spec(14).0 != "avifImageMirror"@) by {
        reveal_strlit("avifStrictFlag");
        reveal_strlit("avifImageMirror");
        assert("avifStrictFlag"@.len() != "avifImageMirror"@.len());
    }
    lemma_lookup_step("avifImageMirror"@, 14);
    assert(allowlist_entry_spec(15).0 != "avifImageMirror"@) by {
        reveal_strlit("avifDecoderSource");
        reveal_strlit("avifImageMirror");
        assert("avifDecoderSource"@.len() != "avifImageMirror"@.len());
    }
    lemma_lookup_step("avifImageMirror"@, 15);
    assert(allowlist_entry_spec(16).0 != "avifImageMirror"@) by {
        reveal_strlit("avifProgressiveState");
        reveal_strlit("avifImageMirror");
        assert("avifProgressiveState"@.len() != "avifImageMirror"@.len());
    }
    lemma_lookup_step("avifImageMirror"@, 16);
    assert(allowlist_entry_spec(17).0 != "avifImageMirror"@) by {
        reveal_strlit("avifImageContentTypeFlag");
        reveal_strlit("avifImageMirror");
        assert("avifImageContentTypeFlag"@.len() != "avifImageMirror"@.len());
    }
    lemma_lookup_step("avifImageMirror"@, 17);
    assert(allowlist_entry_spec(18).0 != "avifImageMirror"@) by {
        reveal_strlit("avifAddImageFlag");
        reveal_strlit("avifImageMirror");
        assert("avifAddImageFlag"@.len() != "avifImageMirror"@.len());
    }
    lemma_lookup_step("avifImageMirror"@, 18);
    assert(allowlist_entry_spec(19).0 != "avifImageMirror"@) by {
        reveal_strlit("avifPixelFormatInfo");
        reveal_strlit("avifImageMirror");
        assert("avifPixelFormatInfo"@.len() != "avifImageMirror"@.len());
    }
    lemma_lookup_step("avifImageMirror"@, 19);
    assert(allowlist_entry_spec(20).0 != "avifImageMirror"@) by {
        reveal_strlit("avifDiagnostics");
        reveal_strlit("avifImageMirror");
        assert("avifDiagnostics"@[4] != "avifImageMirror"@[4]);
    }
    lemma_lookup_step("avifImageMirror"@, 20);
    assert(allowlist_entry_spec(21).0 != "avifImageMirror"@) by {
        reveal_strlit("avifFraction");
        reveal_strlit("avifImageMirror");
        assert("avifFraction"@.len() != "avifImageMirror"@.len());
    }
    lemma_lookup_step("avifImageMirror"@, 21);
    assert(allowlist_entry_spec(22).0 != "avifImageMirror"@) by {
        reveal_strlit("avifSignedFraction");
        reveal_strlit("avifImageMirror");
        assert("avifSignedFraction"@.len() != "avifImageMirror"@.len());
    }
    lemma_lookup_step("avifImageMirror"@, 22);
    assert(allowlist_entry_spec(23).0 != "avifImageMirror"@) by {
        reveal_strlit("avifUnsignedFraction");
        reveal_strlit("avifImageMirror");
        assert("avifUnsignedFraction"@.len() != "avifImageMirror"@.len());
    }
    lemma_lookup_step("avifImageMirror"@, 23);
    assert(allowlist_entry_spec(24).0 != "avifImageMirror"@) by {
        reveal_strlit("avifPixelAspectRatioBox");
        reveal_strlit("avifImageMirror");
        assert("avifPixelAspectRatioBox"@.len() != "avifImageMirror"@.len());
    }
    lemma_lookup_step("avifImageMirror"@, 24);
    assert(allowlist_entry_spec(25).0 != "avifImageMirror"@) by {
        reveal_strlit("avifCleanApertureBox");
        reveal_strlit("avifImageMirror");
        assert("avifCleanApertureBox"@.len() != "avifImageMirror"@.len());
    }
    lemma_lookup_step("avifImageMirror"@, 25);
    assert(allowlist_entry_spec(26).0 != "avifImageMirror"@) by {
        reveal_strlit("avifImageRotation");
        reveal_strlit("avifImageMirror");
        assert("avifImageRotation"@.len() != "avifImageMirror"@.len());
    }
    lemma_lookup_step("avifImageMirror"@, 26);
}

/// The lookup finds `avifCropRect` at its entry.
proof fn lemma_lookup_crop_rect()
    ensures
        allowlisted_from("avifCropRect"@, 0) == Some(DeriveSet::PlainData),
{
    assert(allowlist_entry_spec(0).0 != "avifCropRect"@) by {
        reveal_strlit("avifPlanesFlag");
        reveal_strlit("avifCropRect");
        assert("avifPlanesFlag"@.len() != "avifCropRect"@.len());
    }
    lemma_lookup_step("avifCropRect"@, 0);
    assert(allowlist_entry_spec(1).0 != "avifCropRect"@) by {
        reveal_strlit("avifChannelIndex");
        reveal_strlit("avifCropRect");
        assert("avifChannelIndex"@.len() != "avifCropRect"@.len());
    }
    lemma_lookup_step("avifCropRect"@, 1);
    assert(allowlist_entry_spec(2).0 != "avifCropRect"@) by {
        reveal_strlit("avifResult");
        reveal_strlit("avifCropRect");
        assert("avifResult"@.len() != "avifCropRect"@.len());
    }
    lemma_lookup_step("avifCropRect"@, 2);
    assert(allowlist_entry_spec(3).0 != "avifCropRect"@) by {
        reveal_strlit("avifHeaderFormat");
        reveal_strlit("avifCropRect");
        assert("avifHeaderFormat"@.len() != "avifCropRect"@.len());
    }
    lemma_lookup_step("avifCropRect"@, 3);
    assert(allowlist_entry_spec(4).0 != "avifCropRect"@) by {
        reveal_strlit("avifPixelFormat");
        reveal_strlit("avifCropRect");
        assert("avifPixelFormat"@.len() != "avifCropRect"@.len());
    }
    lemma_lookup_step("avifCropRect"@, 4);
    assert(allowlist_entry_spec(5).0 != "avifCropRect"@) by {
        reveal_strlit("avifChromaSamplePosition");
        reveal_strlit("avifCropRect");
        assert("avifChromaSamplePosition"@.len() != "avifCropRect"@.len());
    }
    lemma_lookup_step("avifCropRect"@, 5);
    assert(allowlist_entry_spec(6).0 != "avifCropRect"@) by {
        reveal_strlit("avifRange");
        reveal_strlit("avifCropRect");
        assert("avifRange"@.len() != "avifCropRect"@.len());
    }
    lemma_lookup_step("avifCropRect"@, 6);
    assert(allowlist_entry_spec(7).0 != "avifCropRect"@) by {
        reveal_strlit("avifTransformFlag");
        reveal_strlit("avifCropRect");
        assert("avifTransformFlag"@.len() != "avifCropRect"@.len());
    }
    lemma_lookup_step("avifCropRect"@, 7);
    assert(allowlist_entry_spec(8).0 != "avifCropRect"@) by {
        reveal_strlit("avifSampleTransformRecipe");
        reveal_strlit("avifCropRect");
        assert("avifSampleTransformRecipe"@.len() != "avifCropRect"@.len());
    }
    lemma_lookup_step("avifCropRect"@, 8);
    assert(allowlist_entry_spec(9).0 != "avifCropRect"@) by {
        reveal_strlit("avifRGBFormat");
        reveal_strlit("avifCropRect");
        assert("avifRGBFormat"@.len() != "avifCropRect"@.len());
    }
    lemma_lookup_step("avifCropRect"@, 9);
    assert(allowlist_entry_spec(10).0 != "avifCropRect"@) by {
        reveal_strlit("avifChromaUpsampling");
        reveal_strlit("avifCropRect");
        assert("avifChromaUpsampling"@.len() != "avifCropRect"@.len());
    }
    lemma_lookup_step("avifCropRect"@, 10);
    assert(allowlist_entry_spec(11).0 != "avifCropRect"@) by {
        reveal_strlit("avifChromaDownsampling");
        reveal_strlit("avifCropRect");
        assert("avifChromaDownsampling"@.len() != "avifCropRect"@.len());
    }
    lemma_lookup_step("avifCropRect"@, 11);
    assert(allowlist_entry_spec(12).0 != "avifCropRect"@) by {
        reveal_strlit("avifCodecChoice");
        reveal_strlit("avifCropRect");
        assert("avifCodecChoice"@.len() != "avifCropRect"@.len());
    }
    lemma_lookup_step("avifCropRect"@, 12);
    assert(allowlist_entry_spec(13).0 != "avifCropRect"@) by {
        reveal_strlit("avifCodecFlag");
        reveal_strlit("avifCropRect");
        assert("avifCodecFlag"@.len() != "avifCropRect"@.len());
    }
    lemma_lookup_step("avifCropRect"@, 13);
    assert(allowlist_entry_spec(14).0 != "avifCropRect"@) by {
        reveal_strlit("avifStrictFlag");
        reveal_strlit("avifCropRect");
        assert("avifStrictFlag"@.len() != "avifCropRect"@.len());
    }
    lemma_lookup_step("avifCropRect"@, 14);
    assert(allowlist_entry_spec(15).0 != "avifCropRect"@) by {
        reveal_strlit("avifDecoderSource");
        reveal_strlit("avifCropRect");
        assert("avifDecoderSource"@.len() != "avifCropRect"@.len());
    }
    lemma_lookup_step("avifCropRect"@, 15);
    assert(allowlist_entry_spec(16).0 != "avifCropRect"@) by {
        reveal_strlit("avifProgressiveState");
        reveal_strlit("avifCropRect");
        assert("avifProgressiveState"@.len() != "avifCropRect"@.len());
    }
    lemma_lookup_step("avifCropRect"@, 16);
    assert(allowlist_entry_spec(17).0 != "avifCropRect"@) by {
        reveal_strlit("avifImageContentTypeFlag");
        reveal_strlit("avifCropRect");
        assert("avifImageContentTypeFlag"@.len() != "avifCropRect"@.len());
    }
    lemma_lookup_step("avifCropRect"@, 17);
    assert(allowlist_entry_spec(18).0 != "avifCropRect"@) by {
        reveal_strlit("avifAddImageFlag");
        reveal_strlit("avifCropRect");
        assert("avifAddImageFlag"@.len() != "avifCropRect"@.len());
    }
    lemma_lookup_step("avifCropRect"@, 18);
    assert(allowlist_entry_spec(19).0 != "avifCropRect"@) by {
        reveal_strlit("avifPixelFormatInfo");
        reveal_strlit("avifCropRect");
        assert("avifPixelFormatInfo"@.len() != "avifCropRect"@.len());
    }
    lemma_lookup_step("avifCropRect"@, 19);
    assert(allowlist_entry_spec(20).0 != "avifCropRect"@) by {
        reveal_strlit("avifDiagnostics");
        reveal_strlit("avifCropRect");
        assert("avifDiagnostics"@.len() != "avifCropRect"@.len());
    }
    lemma_lookup_step("avifCropRect"@, 20);
    assert(allowlist_entry_spec(21).0 != "avifCropRect"@) by {
        reveal_strlit("avifFraction");
        reveal_strlit("avifCropRect");
        assert("avifFraction"@[4] != "avifCropRect"@[4]);
    }
    lemma_lookup_step("avifCropRect"@, 21);
    assert(allowlist_entry_spec(22).0 != "avifCropRect"@) by {
        reveal_strlit("avifSignedFraction");
        reveal_strlit("avifCropRect");
        assert("avifSignedFraction"@.len() != "avifCropRect"@.len());
    }
    lemma_lookup_step("avifCropRect"@, 22);
    assert(allowlist_entry_spec(23).0 != "avifCropRect"@) by {
        reveal_strlit("avifUnsignedFraction");
        reveal_strlit("avifCropRect");
        assert("avifUnsignedFraction"@.len() != "avifCropRect"@.len());
    }
    lemma_lookup_step("avifCropRect"@, 23);
    assert(allowlist_entry_spec(24).0 != "avifCropRect"@) by {
        reveal_strlit("avifPixelAspectRatioBox");
        reveal_strlit("avifCropRect");
        assert("avifPixelAspectRatioBox"@.len() != "avifCropRect"@.len());
    }
    lemma_lookup_step("avifCropRect"@, 24);
    assert(allowlist_entry_spec(25).0 != "avifCropRect"@) by {
        reveal_strlit("avifCleanApertureBox");
        reveal_strlit("avifCropRect");
        assert("avifCleanApertureBox"@.len() != "avifCropRect"@.len());
    }
    lemma_lookup_step("avifCropRect"@, 25);
    assert(allowlist_entry_spec(26).0 != "avifCropRect"@) by {
        reveal_strlit("avifImageRotation");
        reveal_strlit("avifCropRect");
        assert("avifImageRotation"@.len() != "avifCropRect"@.len());
    }
    lemma_lookup_step("avifCropRect"@, 26);
    assert(allowlist_entry_spec(27).0 != "avifCropRect"@) by {
        reveal_strlit("avifImageMirror");
        reveal_strlit("avifCropRect");
        assert("avifImageMirror"@.len() != "avifCropRect"@.len());
    }
    lemma_lookup_step("avifCropRect"@, 27);
}

/// The lookup finds `avifContentLightLevelInformationBox` at its entry.
proof fn lemma_lookup_content_light_level_information_box()
    ensures
        allowlisted_from("avifContentLightLevelInformationBox"@, 0) == Some(DeriveSet::PlainData),
{
    assert(allowlist_entry_spec(0).0 != "avifContentLightLevelInformationBox"@) by {
        reveal_strlit("avifPlanesFlag");
        reveal_strlit("avifContentLightLevelInformationBox");
        assert("avifPlanesFlag"@.len() != "avifContentLightLevelInformationBox"@.len());
    }
    lemma_lookup_step("avifContentLightLevelInformationBox"@, 0);
    assert(allowlist_entry_spec(1).0 != "avifContentLightLevelInformationBox"@) by {
        reveal_strlit("avifChannelIndex");
        reveal_strlit("avifContentLightLevelInformationBox");
        assert("avifChannelIndex"@.len() != "avifContentLightLevelInformationBox"@.len());
    }
    lemma_lookup_step("avifContentLightLevelInformationBox"@, 1);
    assert(allowlist_entry_spec(2).0 != "avifContentLightLevelInformationBox"@) by {
        reveal_strlit("avifResult");
        reveal_strlit("avifContentLightLevelInformationBox");
        assert("avifResult"@.len() != "avifContentLightLevelInformationBox"@.len());
    }
    lemma_lookup_step("avifContentLightLevelInformationBox"@, 2);
    assert(allowlist_entry_spec(3).0 != "avifContentLightLevelInformationBox"@) by {
        reveal_strlit("avifHeaderFormat");
        reveal_strlit("avifContentLightLevelInformationBox");
        assert("avifHeaderFormat"@.len() != "avifContentLightLevelInformationBox"@.len());
    }
    lemma_lookup_step("avifContentLightLevelInformationBox"@, 3);
    assert(allowlist_entry_spec(4).0 != "avifContentLightLevelInformationBox"@) by {
        reveal_strlit("avifPixelFormat");
        reveal_strlit("avifContentLightLevelInformationBox");
        assert("avifPixelFormat"@.len() != "avifContentLightLevelInformationBox"@.len());
    }
    lemma_lookup_step("avifContentLightLevelInformationBox"@, 4);
    assert(allowlist_entry_spec(5).0 != "avifContentLightLevelInformationBox"@) by {
        reveal_strlit("avifChromaSamplePosition");
        reveal_strlit("avifContentLightLevelInformationBox");
        assert("avifChromaSamplePosition"@.len() != "avifContentLightLevelInformationBox"@.len());
    }
    lemma_lookup_step("avifContentLightLevelInformationBox"@, 5);
    assert(allowlist_entry_spec(6).0 != "avifContentLightLevelInformationBox"@) by {
        reveal_strlit("avifRange");
        reveal_strlit("avifContentLightLevelInformationBox");
        assert("avifRange"@.len() != "avifContentLightLevelInformationBox"@.len());
    }
    lemma_lookup_step("avifContentLightLevelInformationBox"@, 6);
    assert(allowlist_entry_spec(7).0 != "avifContentLightLevelInformationBox"@) by {
        reveal_strlit("avifTransformFlag");
        reveal_strlit("avifContentLightLevelInformationBox");
        assert("avifTransformFlag"@.len() != "avifContentLightLevelInformationBox"@.len());
    }
    lemma_lookup_step("avifContentLightLevelInformationBox"@, 7);
    assert(allowlist_entry_spec(8).0 != "avifContentLightLevelInformationBox"@) by {
        reveal_strlit("avifSampleTransformRecipe");
        reveal_strlit("avifContentLightLevelInformationBox");
        assert("avifSampleTransformRecipe"@.len() != "avifContentLightLevelInformationBox"@.len());
    }
    lemma_lookup_step("avifContentLightLevelInformationBox"@, 8);
    assert(allowlist_entry_spec(9).0 != "avifContentLightLevelInformationBox"@) by {
        reveal_strlit("avifRGBFormat");
        reveal_strlit("avifContentLightLevelInformationBox");
        assert("avifRGBFormat"@.len() != "avifContentLightLevelInformationBox"@.len());
    }
    lemma_lookup_step("avifContentLightLevelInformationBox"@, 9);
    assert(allowlist_entry_spec(10).0 != "avifContentLightLevelInformationBox"@) by {
        reveal_strlit("avifChromaUpsampling");
        reveal_strlit("avifContentLightLevelInformationBox");
        assert("avifChromaUpsampling"@.len() != "avifContentLightLevelInformationBox"@.len());
    }
    lemma_lookup_step("avifContentLightLevelInformationBox"@, 10);
    assert(allowlist_entry_spec(11).0 != "avifContentLightLevelInformationBox"@) by {
        reveal_strlit("avifChromaDownsampling");
        reveal_strlit("avifContentLightLevelInformationBox");
        assert("avifChromaDownsampling"@.len() != "avifContentLightLevelInformationBox"@.len());
    }
    lemma_lookup_step("avifContentLightLevelInformationBox"@, 11);
    assert(allowlist_entry_spec(12).0 != "avifContentLightLevelInformationBox"@) by {
        reveal_strlit("avifCodecChoice");
        reveal_strlit("avifContentLightLevelInformationBox");
        assert("avifCodecChoice"@.len() != "avifContentLightLevelInformationBox"@.len());
    }
    lemma_lookup_step("avifContentLightLevelInformationBox"@, 12);
    assert(allowlist_entry_spec(13).0 != "avifContentLightLevelInformationBox"@) by {
        reveal_strlit("avifCodecFlag");
        reveal_strlit("avifContentLightLevelInformationBox");
        assert("avifCodecFlag"@.len() != "avifContentLightLevelInformationBox"@.len());
    }
    lemma_lookup_step("avifContentLightLevelInformationBox"@, 13);
    assert(allowlist_entry_spec(14).0 != "avifContentLightLevelInformationBox"@) by {
        reveal_strlit("avifStrictFlag");
        reveal_strlit("avifContentLightLevelInformationBox");
        assert("avifStrictFlag"@.len() != "avifContentLightLevelInformationBox"@.len());
    }
    lemma_lookup_step("avifContentLightLevelInformationBox"@, 14);
    assert(allowlist_entry_spec(15).0 != "avifContentLightLevelInformationBox"@) by {
        reveal_strlit("avifDecoderSource");
        reveal_strlit("avifContentLightLevelInformationBox");
        assert("avifDecoderSource"@.len() != "avifContentLightLevelInformationBox"@.len());
    }
    lemma_lookup_step("avifContentLightLevelInformationBox"@, 15);
    assert(allowlist_entry_spec(16).0 != "avifContentLightLevelInformationBox"@) by {
        reveal_strlit("avifProgressiveState");
        reveal_strlit("avifContentLightLevelInformationBox");
        assert("avifProgressiveState"@.len() != "avifContentLightLevelInformationBox"@.len());
    }
    lemma_lookup_step("avifContentLightLevelInformationBox"@, 16);
    assert(allowlist_entry_spec(17).0 != "avifContentLightLevelInformationBox"@) by {
        reveal_strlit("avifImageContentTypeFlag");
        reveal_strlit("avifContentLightLevelInformationBox");
        assert("avifImageContentTypeFlag"@.len() != "avifContentLightLevelInformationBox"@.len());
    }
    lemma_lookup_step("avifContentLightLevelInformationBox"@, 17);
    assert(allowlist_entry_spec(18).0 != "avifContentLightLevelInformationBox"@) by {
        reveal_strlit("avifAddImageFlag");
        reveal_strlit("avifContentLightLevelInformationBox");
        assert("avifAddImageFlag"@.len() != "avifContentLightLevelInformationBox"@.len());
    }
    lemma_lookup_step("avifContentLightLevelInformationBox"@, 18);
    assert(allowlist_entry_spec(19).0 != "avifContentLightLevelInformationBox"@) by {
        reveal_strlit("avifPixelFormatInfo");
        reveal_strlit("avifContentLightLevelInformationBox");
        assert("avifPixelFormatInfo"@.len() != "avifContentLightLevelInformationBox"@.len());
    }
    lemma_lookup_step("avifContentLightLevelInformationBox"@, 19);
    assert(allowlist_entry_spec(20).0 != "avifContentLightLevelInformationBox"@) by {
        reveal_strlit("avifDiagnostics");
        reveal_strlit("avifContentLightLevelInformationBox");
        assert("avifDiagnostics"@.len() != "avifContentLightLevelInformationBox"@.len());
    }
    lemma_lookup_step("avifContentLightLevelInformationBox"@, 20);
    assert(allowlist_entry_spec(21).0 != "avifContentLightLevelInformationBox"@) by {
        reveal_strlit("avifFraction");
        reveal_strlit("avifContentLightLevelInformationBox");
        assert("avifFraction"@.len() != "avifContentLightLevelInformationBox"@.len());
    }
    lemma_lookup_step("avifContentLightLevelInformationBox"@, 21);
    assert(allowlist_entry_spec(22).0 != "avifContentLightLevelInformationBox"@) by {
        reveal_strlit("avifSignedFraction");
        reveal_strlit("avifContentLightLevelInformationBox");
        assert("avifSignedFraction"@.len() != "avifContentLightLevelInformationBox"@.len());
    }
    lemma_lookup_step("avifContentLightLevelInformationBox"@, 22);
    assert(allowlist_entry_spec(23).0 != "avifContentLightLevelInformationBox"@) by {
        reveal_strlit("avifUnsignedFraction");
        reveal_strlit("avifContentLightLevelInformationBox");
        assert("avifUnsignedFraction"@.len() != "avifContentLightLevelInformationBox"@.len());
    }
    lemma_lookup_step("avifContentLightLevelInformationBox"@, 23);
    assert(allowlist_entry_spec(24).0 != "avifContentLightLevelInformationBox"@) by {
        reveal_strlit("avifPixelAspectRatioBox");
        reveal_strlit("avifContentLightLevelInformationBox");
        assert("avifPixelAspectRatioBox"@.len() != "avifContentLightLevelInformationBox"@.len());
    }
    lemma_lookup_step("avifContentLightLevelInformationBox"@, 24);
    assert(allowlist_entry_spec(25).0 != "avifContentLightLevelInformationBox"@) by {
        reveal_strlit("avifCleanApertureBox");
        reveal_strlit("avifContentLightLevelInformationBox");
        assert("avifCleanApertureBox"@.len() != "avifContentLightLevelInformationBox"@.len());
    }
    lemma_lookup_step("avifContentLightLevelInformationBox"@, 25);
    assert(allowlist_entry_spec(26).0 != "avifContentLightLevelInformationBox"@) by {
        reveal_strlit("avifImageRotation");
        reveal_strlit("avifContentLightLevelInformationBox");
        assert("avifImageRotation"@.len() != "avifContentLightLevelInformationBox"@.len());
    }
    lemma_lookup_step("avifContentLightLevelInformationBox"@, 26);
    assert(allowlist_entry_spec(27).0 != "avifContentLightLevelInformationBox"@) by {
        reveal_strlit("avifImageMirror");
        reveal_strlit("avifContentLightLevelInformationBox");
        assert("avifImageMirror"@.len() != "avifContentLightLevelInformationBox"@.len());
    }
    lemma_lookup_step("avifContentLightLevelInformationBox"@, 27);
    assert(allowlist_entry_spec(28).0 != "avifContentLightLevelInformationBox"@) by {
        reveal_strlit("avifCropRect");
        reveal_strlit("avifContentLightLevelInformationBox");
        assert("avifCropRect"@.len() != "avifContentLightLevelInformationBox"@.len());
    }
    lemma_lookup_step("avifContentLightLevelInformationBox"@, 28);
}

/// The lookup finds `avifIOStats` at its entry.
proof fn lemma_lookup_i_o_stats()
    ensures
        allowlisted_from("avifIOStats"@, 0) == Some(DeriveSet::PlainData),
{
    assert(allowlist_entry_spec(0).0 != "avifIOStats"@) by {
        reveal_strlit("avifPlanesFlag");
        reveal_strlit("avifIOStats");
        assert("avifPlanesFlag"@.len() != "avifIOStats"@.len());
    }
    lemma_lookup_step("avifIOStats"@, 0);
    assert(allowlist_entry_spec(1).0 != "avifIOStats"@) by {
        reveal_strlit("avifChannelIndex");
        reveal_strlit("avifIOStats");
        assert("avifChannelIndex"@.len() != "avifIOStats"@.len());
    }
    lemma_lookup_step("avifIOStats"@, 1);
    assert(allowlist_entry_spec(2).0 != "avifIOStats"@) by {
        reveal_strlit("avifResult");
        reveal_strlit("avifIOStats");
        assert("avifResult"@.len() != "avifIOStats"@.len());
    }
    lemma_lookup_step("avifIOStats"@, 2);
    assert(allowlist_entry_spec(3).0 != "avifIOStats"@) by {
        reveal_strlit("avifHeaderFormat");
        reveal_strlit("avifIOStats");
        assert("avifHeaderFormat"@.len() != "avifIOStats"@.len());
    }
    lemma_lookup_step("avifIOStats"@, 3);
    assert(allowlist_entry_spec(4).0 != "avifIOStats"@) by {
        reveal_strlit("avifPixelFormat");
        reveal_strlit("avifIOStats");
        assert("avifPixelFormat"@.len() != "avifIOStats"@.len());
    }
    lemma_lookup_step("avifIOStats"@, 4);
    assert(allowlist_entry_spec(5).0 != "avifIOStats"@) by {
        reveal_strlit("avifChromaSamplePosition");
        reveal_strlit("avifIOStats");
        assert("avifChromaSamplePosition"@.len() != "avifIOStats"@.len());
    }
    lemma_lookup_step("avifIOStats"@, 5);
    assert(allowlist_entry_spec(6).0 != "avifIOStats"@) by {
        reveal_strlit("avifRange");
        reveal_strlit("avifIOStats");
        assert("avifRange"@.len() != "avifIOStats"@.len());
    }
    lemma_lookup_step("avifIOStats"@, 6);
    assert(allowlist_entry_spec(7).0 != "avifIOStats"@) by {
        reveal_strlit("avifTransformFlag");
        reveal_strlit("avifIOStats");
        assert("avifTransformFlag"@.len() != "avifIOStats"@.len());
    }
    lemma_lookup_step("avifIOStats"@, 7);
    assert(allowlist_entry_spec(8).0 != "avifIOStats"@) by {
        reveal_strlit("avifSampleTransformRecipe");
        reveal_strlit("avifIOStats");
        assert("avifSampleTransformRecipe"@.len() != "avifIOStats"@.len());
    }
    lemma_lookup_step("avifIOStats"@, 8);
    assert(allowlist_entry_spec(9).0 != "avifIOStats"@) by {
        reveal_strlit("avifRGBFormat");
        reveal_strlit("avifIOStats");
        assert("avifRGBFormat"@.len() != "avifIOStats"@.len());
    }
    lemma_lookup_step("avifIOStats"@, 9);
    assert(allowlist_entry_spec(10).0 != "avifIOStats"@) by {
        reveal_strlit("avifChromaUpsampling");
        reveal_strlit("avifIOStats");
        assert("avifChromaUpsampling"@.len() != "avifIOStats"@.len());
    }
    lemma_lookup_step("avifIOStats"@, 10);
    assert(allowlist_entry_spec(11).0 != "avifIOStats"@) by {
        reveal_strlit("avifChromaDownsampling");
        reveal_strlit("avifIOStats");
        assert("avifChromaDownsampling"@.len() != "avifIOStats"@.len());
    }
    lemma_lookup_step("avifIOStats"@, 11);
    assert(allowlist_entry_spec(12).0 != "avifIOStats"@) by {
        reveal_strlit("avifCodecChoice");
        reveal_strlit("avifIOStats");
        assert("avifCodecChoice"@.len() != "avifIOStats"@.len());
    }
    lemma_lookup_step("avifIOStats"@, 12);
    assert(allowlist_entry_spec(13).0 != "avifIOStats"@) by {
        reveal_strlit("avifCodecFlag");
        reveal_strlit("avifIOStats");
        assert("avifCodecFlag"@.len() != "avifIOStats"@.len());
    }
    lemma_lookup_step("avifIOStats"@, 13);
    assert(allowlist_entry_spec(14).0 != "avifIOStats"@) by {
        reveal_strlit("avifStrictFlag");
        reveal_strlit("avifIOStats");
        assert("avifStrictFlag"@.len() != "avifIOStats"@.len());
    }
    lemma_lookup_step("avifIOStats"@, 14);
    assert(allowlist_entry_spec(15).0 != "avifIOStats"@) by {
        reveal_strlit("avifDecoderSource");
        reveal_strlit("avifIOStats");
        assert("avifDecoderSource"@.len() != "avifIOStats"@.len());
    }
    lemma_lookup_step("avifIOStats"@, 15);
    assert(allowlist_entry_spec(16).0 != "avifIOStats"@) by {
        reveal_strlit("avifProgressiveState");
        reveal_strlit("avifIOStats");
        assert("avifProgressiveState"@.len() != "avifIOStats"@.len());
    }
    lemma_lookup_step("avifIOStats"@, 16);
    assert(allowlist_entry_spec(17).0 != "avifIOStats"@) by {
        reveal_strlit("avifImageContentTypeFlag");
        reveal_strlit("avifIOStats");
        assert("avifImageContentTypeFlag"@.len() != "avifIOStats"@.len());
    }
    lemma_lookup_step("avifIOStats"@, 17);
    assert(allowlist_entry_spec(18).0 != "avifIOStats"@) by {
        reveal_strlit("avifAddImageFlag");
        reveal_strlit("avifIOStats");
        assert("avifAddImageFlag"@.len() != "avifIOStats"@.len());
    }
    lemma_lookup_step("avifIOStats"@, 18);
    assert(allowlist_entry_spec(19).0 != "avifIOStats"@) by {
        reveal_strlit("avifPixelFormatInfo");
        reveal_strlit("avifIOStats");
        assert("avifPixelFormatInfo"@.len() != "avifIOStats"@.len());
    }
    lemma_lookup_step("avifIOStats"@, 19);
    assert(allowlist_entry_spec(20).0 != "avifIOStats"@) by {
        reveal_strlit("avifDiagnostics");
        reveal_strlit("avifIOStats");
        assert("avifDiagnostics"@.len() != "avifIOStats"@.len());
    }
    lemma_lookup_step("avifIOStats"@, 20);
    assert(allowlist_entry_spec(21).0 != "avifIOStats"@) by {
        reveal_strlit("avifFraction");
        reveal_strlit("avifIOStats");
        assert("avifFraction"@.len() != "avifIOStats"@.len());
    }
    lemma_lookup_step("avifIOStats"@, 21);
    assert(allowlist_entry_spec(22).0 != "avifIOStats"@) by {
        reveal_strlit("avifSignedFraction");
        reveal_strlit("avifIOStats");
        assert("avifSignedFraction"@.len() != "avifIOStats"@.len());
    }
    lemma_lookup_step("avifIOStats"@, 22);
    assert(allowlist_entry_spec(23).0 != "avifIOStats"@) by {
        reveal_strlit("avifUnsignedFraction");
        reveal_strlit("avifIOStats");
        assert("avifUnsignedFraction"@.len() != "avifIOStats"@.len());
    }
    lemma_lookup_step("avifIOStats"@, 23);
    assert(allowlist_entry_spec(24).0 != "avifIOStats"@) by {
        reveal_strlit("avifPixelAspectRatioBox");
        reveal_strlit("avifIOStats");
        assert("avifPixelAspectRatioBox"@.len() != "avifIOStats"@.len());
    }
    lemma_lookup_step("avifIOStats"@, 24);
    assert(allowlist_entry_spec(25).0 != "avifIOStats"@) by {
        reveal_strlit("avifCleanApertureBox");
        reveal_strlit("avifIOStats");
        assert("avifCleanApertureBox"@.len() != "avifIOStats"@.len());
    }
    lemma_lookup_step("avifIOStats"@, 25);
    assert(allowlist_entry_spec(26).0 != "avifIOStats"@) by {
        reveal_strlit("avifImageRotation");
        reveal_strlit("avifIOStats");
        assert("avifImageRotation"@.len() != "avifIOStats"@.len());
    }
    lemma_lookup_step("avifIOStats"@, 26);
    assert(allowlist_entry_spec(27).0 != "avifIOStats"@) by {
        reveal_strlit("avifImageMirror");
        reveal_strlit("avifIOStats");
        assert("avifImageMirror"@.len() != "avifIOStats"@.len());
    }
    lemma_lookup_step("avifIOStats"@, 27);
    assert(allowlist_entry_spec(28).0 != "avifIOStats"@) by {
        reveal_strlit("avifCropRect");
        reveal_strlit("avifIOStats");
        assert("avifCropRect"@.len() != "avifIOStats"@.len());
    }
    lemma_lookup_step("avifIOStats"@, 28);
    assert(allowlist_entry_spec(29).0 != "avifIOStats"@) by {
        reveal_strlit("avifContentLightLevelInformationBox");
        reveal_strlit("avifIOStats");
        assert("avifContentLightLevelInformationBox"@.len() != "avifIOStats"@.len());
    }
    lemma_lookup_step("avifIOStats"@, 29);
}

/// The lookup finds `avifExtent` at its entry.
proof fn lemma_lookup_extent()
    ensures
        allowlisted_from("avifExtent"@, 0) == Some(DeriveSet::PlainData),
{
    assert(allowlist_entry_spec(0).0 != "avifExtent"@) by {
        reveal_strlit("avifPlanesFlag");
        reveal_strlit("avifExtent");
        assert("avifPlanesFlag"@.len() != "avifExtent"@.len());
    }
    lemma_lookup_step("avifExtent"@, 0);
    assert(allowlist_entry_spec(1).0 != "avifExtent"@) by {
        reveal_strlit("avifChannelIndex");
        reveal_strlit("avifExtent");
        assert("avifChannelIndex"@.len() != "avifExtent"@.len());
    }
    lemma_lookup_step("avifExtent"@, 1);
    assert(allowlist_entry_spec(2).0 != "avifExtent"@) by {
        reveal_strlit("avifResult");
        reveal_strlit("avifExtent");
        assert("avifResult"@[4] != "avifExtent"@[4]);
    }
    lemma_lookup_step("avifExtent"@, 2);
    assert(allowlist_entry_spec(3).0 != "avifExtent"@) by {
        reveal_strlit("avifHeaderFormat");
        reveal_strlit("avifExtent");
        assert("avifHeaderFormat"@.len() != "avifExtent"@.len());
    }
    lemma_lookup_step("avifExtent"@, 3);
    assert(allowlist_entry_spec(4).0 != "avifExtent"@) by {
        reveal_strlit("avifPixelFormat");
        reveal_strlit("avifExtent");
        assert("avifPixelFormat"@.len() != "avifExtent"@.len());
    }
    lemma_lookup_step("avifExtent"@, 4);
    assert(allowlist_entry_spec(5).0 != "avifExtent"@) by {
        reveal_strlit("avifChromaSamplePosition");
        reveal_strlit("avifExtent");
        assert("avifChromaSamplePosition"@.len() != "avifExtent"@.len());
    }
    lemma_lookup_step("avifExtent"@, 5);
    assert(allowlist_entry_spec(6).0 != "avifExtent"@) by {
        reveal_strlit("avifRange");
        reveal_strlit("avifExtent");
        assert("avifRange"@.len() != "avifExtent"@.len());
    }
    lemma_lookup_step("avifExtent"@, 6);
    assert(allowlist_entry_spec(7).0 != "avifExtent"@) by {
        reveal_strlit("avifTransformFlag");
        reveal_strlit("avifExtent");
        assert("avifTransformFlag"@.len() != "avifExtent"@.len());
    }
    lemma_lookup_step("avifExtent"@, 7);
    assert(allowlist_entry_spec(8).0 != "avifExtent"@) by {
        reveal_strlit("avifSampleTransformRecipe");
        reveal_strlit("avifExtent");
        assert("avifSampleTransformRecipe"@.len() != "avifExtent"@.len());
    }
    lemma_lookup_step("avifExtent"@, 8);
    assert(allowlist_entry_spec(9).0 != "avifExtent"@) by {
        reveal_strlit("avifRGBFormat");
        reveal_strlit("avifExtent");
        assert("avifRGBFormat"@.len() != "avifExtent"@.len());
    }
    lemma_lookup_step("avifExtent"@, 9);
    assert(allowlist_entry_spec(10).0 != "avifExtent"@) by {
        reveal_strlit("avifChromaUpsampling");
        reveal_strlit("avifExtent");
        assert("avifChromaUpsampling"@.len() != "avifExtent"@.len());
    }
    lemma_lookup_step("avifExtent"@, 10);
    assert(allowlist_entry_spec(11).0 != "avifExtent"@) by {
        reveal_strlit("avifChromaDownsampling");
        reveal_strlit("avifExtent");
        assert("avifChromaDownsampling"@.len() != "avifExtent"@.len());
    }
    lemma_lookup_step("avifExtent"@, 11);
    assert(allowlist_entry_spec(12).0 != "avifExtent"@) by {
        reveal_strlit("avifCodecChoice");
        reveal_strlit("avifExtent");
        assert("avifCodecChoice"@.len() != "avifExtent"@.len());
    }
    lemma_lookup_step("avifExtent"@, 12);
    assert(allowlist_entry_spec(13).0 != "avifExtent"@) by {
        reveal_strlit("avifCodecFlag");
        reveal_strlit("avifExtent");
        assert("avifCodecFlag"@.len() != "avifExtent"@.len());
    }
    lemma_lookup_step("avifExtent"@, 13);
    assert(allowlist_entry_spec(14).0 != "avifExtent"@) by {
        reveal_strlit("avifStrictFlag");
        reveal_strlit("avifExtent");
        assert("avifStrictFlag"@.len() != "avifExtent"@.len());
    }
    lemma_lookup_step("avifExtent"@, 14);
    assert(allowlist_entry_spec(15).0 != "avifExtent"@) by {
        reveal_strlit("avifDecoderSource");
        reveal_strlit("avifExtent");
        assert("avifDecoderSource"@.len() != "avifExtent"@.len());
    }
    lemma_lookup_step("avifExtent"@, 15);
    assert(allowlist_entry_spec(16).0 != "avifExtent"@) by {
        reveal_strlit("avifProgressiveState");
        reveal_strlit("avifExtent");
        assert("avifProgressiveState"@.len() != "avifExtent"@.len());
    }
    lemma_lookup_step("avifExtent"@, 16);
    assert(allowlist_entry_spec(17).0 != "avifExtent"@) by {
        reveal_strlit("avifImageContentTypeFlag");
        reveal_strlit("avifExtent");
        assert("avifImageContentTypeFlag"@.len() != "avifExtent"@.len());
    }
    lemma_lookup_step("avifExtent"@, 17);
    assert(allowlist_entry_spec(18).0 != "avifExtent"@) by {
        reveal_strlit("avifAddImageFlag");
        reveal_strlit("avifExtent");
        assert("avifAddImageFlag"@.len() != "avifExtent"@.len());
    }
    lemma_lookup_step("avifExtent"@, 18);
    assert(allowlist_entry_spec(19).0 != "avifExtent"@) by {
        reveal_strlit("avifPixelFormatInfo");
        reveal_strlit("avifExtent");
        assert("avifPixelFormatInfo"@.len() != "avifExtent"@.len());
    }
    lemma_lookup_step("avifExtent"@, 19);
    assert(allowlist_entry_spec(20).0 != "avifExtent"@) by {
        reveal_strlit("avifDiagnostics");
        reveal_strlit("avifExtent");
        assert("avifDiagnostics"@.len() != "avifExtent"@.len());
    }
    lemma_lookup_step("avifExtent"@, 20);
    assert(allowlist_entry_spec(21).0 != "avifExtent"@) by {
        reveal_strlit("avifFraction");
        reveal_strlit("avifExtent");
        assert("avifFraction"@.len() != "avifExtent"@.len());
    }
    lemma_lookup_step("avifExtent"@, 21);
    assert(allowlist_entry_spec(22).0 != "avifExtent"@) by {
        reveal_strlit("avifSignedFraction");
        reveal_strlit("avifExtent");
        assert("avifSignedFraction"@.len() != "avifExtent"@.len());
    }
    lemma_lookup_step("avifExtent"@, 22);
    assert(allowlist_entry_spec(23).0 != "avifExtent"@) by {
        reveal_strlit("avifUnsignedFraction");
        reveal_strlit("avifExtent");
        assert("avifUnsignedFraction"@.len() != "avifExtent"@.len());
    }
    lemma_lookup_step("avifExtent"@, 23);
    assert(allowlist_entry_spec(24).0 != "avifExtent"@) by {
        reveal_strlit("avifPixelAspectRatioBox");
        reveal_strlit("avifExtent");
        assert("avifPixelAspectRatioBox"@.len() != "avifExtent"@.len());
    }
    lemma_lookup_step("avifExtent"@, 24);
    assert(allowlist_entry_spec(25).0 != "avifExtent"@) by {
        reveal_strlit("avifCleanApertureBox");
        reveal_strlit("avifExtent");
        assert("avifCleanApertureBox"@.len() != "avifExtent"@.len());
    }
    lemma_lookup_step("avifExtent"@, 25);
    assert(allowlist_entry_spec(26).0 != "avifExtent"@) by {
        reveal_strlit("avifImageRotation");
        reveal_strlit("avifExtent");
        assert("avifImageRotation"@.len() != "avifExtent"@.len());
    }
    lemma_lookup_step("avifExtent"@, 26);
    assert(allowlist_entry_spec(27).0 != "avifExtent"@) by {
        reveal_strlit("avifImageMirror");
        reveal_strlit("avifExtent");
        assert("avifImageMirror"@.len() != "avifExtent"@.len());
    }
    lemma_lookup_step("avifExtent"@, 27);
    assert(allowlist_entry_spec(28).0 != "avifExtent"@) by {
        reveal_strlit("avifCropRect");
        reveal_strlit("avifExtent");
        assert("avifCropRect"@.len() != "avifExtent"@.len());
    }
    lemma_lookup_step("avifExtent"@, 28);
    assert(allowlist_entry_spec(29).0 != "avifExtent"@) by {
        reveal_strlit("avifContentLightLevelInformationBox");
        reveal_strlit("avifExtent");
        assert("avifContentLightLevelInformationBox"@.len() != "avifExtent"@.len());
    }
    lemma_lookup_step("avifExtent"@, 29);
    assert(allowlist_entry_spec(30).0 != "avifExtent"@) by {
        reveal_strlit("avifIOStats");
        reveal_strlit("avifExtent");
        assert("avifIOStats"@.len() != "avifExtent"@.len());
    }
    lemma_lookup_step("avifExtent"@, 30);
}

/// The lookup finds `avifScalingMode` at its entry.
proof fn lemma_lookup_scaling_mode()
    ensures
        allowlisted_from("avifScalingMode"@, 0) == Some(DeriveSet::PlainData),
{
    assert(allowlist_entry_spec(0).0 != "avifScalingMode"@) by {
        reveal_strlit("avifPlanesFlag");
        reveal_strlit("avifScalingMode");
        assert("avifPlanesFlag"@.len() != "avifScalingMode"@.len());
    }
    lemma_lookup_step("avifScalingMode"@, 0);
    assert(allowlist_entry_spec(1).0 != "avifScalingMode"@) by {
        reveal_strlit("avifChannelIndex");
        reveal_strlit("avifScalingMode");
        assert("avifChannelIndex"@.len() != "avifScalingMode"@.len());
    }
    lemma_lookup_step("avifScalingMode"@, 1);
    assert(allowlist_entry_spec(2).0 != "avifScalingMode"@) by {
        reveal_strlit("avifResult");
        reveal_strlit("avifScalingMode");
        assert("avifResult"@.len() != "avifScalingMode"@.len());
    }
    lemma_lookup_step("avifScalingMode"@, 2);
    assert(allowlist_entry_spec(3).0 != "avifScalingMode"@) by {
        reveal_strlit("avifHeaderFormat");
        reveal_strlit("avifScalingMode");
        assert("avifHeaderFormat"@.len() != "avifScalingMode"@.len());
    }
    lemma_lookup_step("avifScalingMode"@, 3);
    assert(allowlist_entry_spec(4).0 != "avifScalingMode"@) by {
        reveal_strlit("avifPixelFormat");
        reveal_strlit("avifScalingMode");
        assert("avifPixelFormat"@[4] != "avifScalingMode"@[4]);
    }
    lemma_lookup_step("avifScalingMode"@, 4);
    assert(allowlist_entry_spec(5).0 != "avifScalingMode"@) by {
        reveal_strlit("avifChromaSamplePosition");
        reveal_strlit("avifScalingMode");
        assert("avifChromaSamplePosition"@.len() != "avifScalingMode"@.len());
    }
    lemma_lookup_step("avifScalingMode"@, 5);
    assert(allowlist_entry_spec(6).0 != "avifScalingMode"@) by {
        reveal_strlit("avifRange");
        reveal_strlit("avifScalingMode");
        assert("avifRange"@.len() != "avifScalingMode"@.len());
    }
    lemma_lookup_step("avifScalingMode"@, 6);
    assert(allowlist_entry_spec(7).0 != "avifScalingMode"@) by {
        reveal_strlit("avifTransformFlag");
        reveal_strlit("avifScalingMode");
        assert("avifTransformFlag"@.len() != "avifScalingMode"@.len());
    }
    lemma_lookup_step("avifScalingMode"@, 7);
    assert(allowlist_entry_spec(8).0 != "avifScalingMode"@) by {
        reveal_strlit("avifSampleTransformRecipe");
        reveal_strlit("avifScalingMode");
        assert("avifSampleTransformRecipe"@.len() != "avifScalingMode"@.len());
    }
    lemma_lookup_step("avifScalingMode"@, 8);
    assert(allowlist_entry_spec(9).0 != "avifScalingMode"@) by {
        reveal_strlit("avifRGBFormat");
        reveal_strlit("avifScalingMode");
        assert("avifRGBFormat"@.len() != "avifScalingMode"@.len());
    }
    lemma_lookup_step("avifScalingMode"@, 9);
    assert(allowlist_entry_spec(10).0 != "avifScalingMode"@) by {
        reveal_strlit("avifChromaUpsampling");
        reveal_strlit("avifScalingMode");
        assert("avifChromaUpsampling"@.len() != "avifScalingMode"@.len());
    }
    lemma_lookup_step("avifScalingMode"@, 10);
    assert(allowlist_entry_spec(11).0 != "avifScalingMode"@) by {
        reveal_strlit("avifChromaDownsampling");
        reveal_strlit("avifScalingMode");
        assert("avifChromaDownsampling"@.len() != "avifScalingMode"@.len());
    }
    lemma_lookup_step("avifScalingMode"@, 11);
    assert(allowlist_entry_spec(12).0 != "avifScalingMode"@) by {
        reveal_strlit("avifCodecChoice");
        reveal_strlit("avifScalingMode");
        assert("avifCodecChoice"@[4] != "avifScalingMode"@[4]);
    }
    lemma_lookup_step("avifScalingMode"@, 12);
    assert(allowlist_entry_spec(13).0 != "avifScalingMode"@) by {
        reveal_strlit("avifCodecFlag");
        reveal_strlit("avifScalingMode");
        assert("avifCodecFlag"@.len() != "avifScalingMode"@.len());
    }
    lemma_lookup_step("avifScalingMode"@, 13);
    assert(allowlist_entry_spec(14).0 != "avifScalingMode"@) by {
        reveal_strlit("avifStrictFlag");
        reveal_strlit("avifScalingMode");
        assert("avifStrictFlag"@.len() != "avifScalingMode"@.len());
    }
    lemma_lookup_step("avifScalingMode"@, 14);
    assert(allowlist_entry_spec(15).0 != "avifScalingMode"@) by {
        reveal_strlit("avifDecoderSource");
        reveal_strlit("avifScalingMode");
        assert("avifDecoderSource"@.len() != "avifScalingMode"@.len());
    }
    lemma_lookup_step("avifScalingMode"@, 15);
    assert(allowlist_entry_spec(16).0 != "avifScalingMode"@) by {
        reveal_strlit("avifProgressiveState");
        reveal_strlit("avifScalingMode");
        assert("avifProgressiveState"@.len() != "avifScalingMode"@.len());
    }
    lemma_lookup_step("avifScalingMode"@, 16);
    assert(allowlist_entry_spec(17).0 != "avifScalingMode"@) by {
        reveal_strlit("avifImageContentTypeFlag");
        reveal_strlit("avifScalingMode");
        assert("avifImageContentTypeFlag"@.len() != "avifScalingMode"@.len());
    }
    lemma_lookup_step("avifScalingMode"@, 17);
    assert(allowlist_entry_spec(18).0 != "avifScalingMode"@) by {
        reveal_strlit("avifAddImageFlag");
        reveal_strlit("avifScalingMode");
        assert("avifAddImageFlag"@.len() != "avifScalingMode"@.len());
    }
    lemma_lookup_step("avifScalingMode"@, 18);
    assert(allowlist_entry_spec(19).0 != "avifScalingMode"@) by {
        reveal_strlit("avifPixelFormatInfo");
        reveal_strlit("avifScalingMode");
        assert("avifPixelFormatInfo"@.len() != "avifScalingMode"@.len());
    }
    lemma_lookup_step("avifScalingMode"@, 19);
    assert(allowlist_entry_spec(20).0 != "avifScalingMode"@) by {
        reveal_strlit("avifDiagnostics");
        reveal_strlit("avifScalingMode");
        assert("avifDiagnostics"@[4] != "avifScalingMode"@[4]);
    }
    lemma_lookup_step("avifScalingMode"@, 20);
    assert(allowlist_entry_spec(21).0 != "avifScalingMode"@) by {
        reveal_strlit("avifFraction");
        reveal_strlit("avifScalingMode");
        assert("avifFraction"@.len() != "avifScalingMode"@.len());
    }
    lemma_lookup_step("avifScalingMode"@, 21);
    assert(allowlist_entry_spec(22).0 != "avifScalingMode"@) by {
        reveal_strlit("avifSignedFraction");
        reveal_strlit("avifScalingMode");
        assert("avifSignedFraction"@.len() != "avifScalingMode"@.len());
    }
    lemma_lookup_step("avifScalingMode"@, 22);
    assert(allowlist_entry_spec(23).0 != "avifScalingMode"@) by {
        reveal_strlit("avifUnsignedFraction");
        reveal_strlit("avifScalingMode");
        assert("avifUnsignedFraction"@.len() != "avifScalingMode"@.len());
    }
    lemma_lookup_step("avifScalingMode"@, 23);
    assert(allowlist_entry_spec(24).0 != "avifScalingMode"@) by {
        reveal_strlit("avifPixelAspectRatioBox");
        reveal_strlit("avifScalingMode");
        assert("avifPixelAspectRatioBox"@.len() != "avifScalingMode"@.len());
    }
    lemma_lookup_step("avifScalingMode"@, 24);
    assert(allowlist_entry_spec(25).0 != "avifScalingMode"@) by {
        reveal_strlit("avifCleanApertureBox");
        reveal_strlit("avifScalingMode");
        assert("avifCleanApertureBox"@.len() != "avifScalingMode"@.len());
    }
    lemma_lookup_step("avifScalingMode"@, 25);
    assert(allowlist_entry_spec(26).0 != "avifScalingMode"@) by {
        reveal_strlit("avifImageRotation");
        reveal_strlit("avifScalingMode");
        assert("avifImageRotation"@.len() != "avifScalingMode"@.len());
    }
    lemma_lookup_step("avifScalingMode"@, 26);
    assert(allowlist_entry_spec(27).0 != "avifScalingMode"@) by {
        reveal_strlit("avifImageMirror");
        reveal_strlit("avifScalingMode");
        assert("avifImageMirror"@[4] != "avifScalingMode"@[4]);
    }
    lemma_lookup_step("avifScalingMode"@, 27);
    assert(allowlist_entry_spec(28).0 != "avifScalingMode"@) by {
        reveal_strlit("avifCropRect");
        reveal_strlit("avifScalingMode");
        assert("avifCropRect"@.len() != "avifScalingMode"@.len());
    }
    lemma_lookup_step("avifScalingMode"@, 28);
    assert(allowlist_entry_spec(29).0 != "avifScalingMode"@) by {
        reveal_strlit("avifContentLightLevelInformationBox");
        reveal_strlit("avifScalingMode");
        assert("avifContentLightLevelInformationBox"@.len() != "avifScalingMode"@.len());
    }
    lemma_lookup_step("avifScalingMode"@, 29);
    assert(allowlist_entry_spec(30).0 != "avifScalingMode"@) by {
        reveal_strlit("avifIOStats");
        reveal_strlit("avifScalingMode");
        assert("avifIOStats"@.len() != "avifScalingMode"@.len());
    }
    lemma_lookup_step("avifScalingMode"@, 30);
    assert(allowlist_entry_spec(31).0 != "avifScalingMode"@) by {
        reveal_strlit("avifExtent");
        reveal_strlit("avifScalingMode");
        assert("avifExtent"@.len() != "avifScalingMode"@.len());
    }
    lemma_lookup_step("avifScalingMode"@, 31);
}

/// The lookup finds `avifPlanesFlag` at its entry.
proof fn lemma_lookup_planes_flag()
    ensures
        allowlisted_from("avifPlanesFlag"@, 0) == Some(DeriveSet::NewtypeEnum),
{
}

/// The lookup finds `avifChannelIndex` at its entry.
proof fn lemma_lookup_channel_index()
    ensures
        allowlisted_from("avifChannelIndex"@, 0) == Some(DeriveSet::NewtypeEnum),
{
    assert(allowlist_entry_spec(0).0 != "avifChannelIndex"@) by {
        reveal_strlit("avifPlanesFlag");
        reveal_strlit("avifChannelIndex");
        assert("avifPlanesFlag"@.len() != "avifChannelIndex"@.len());
    }
    lemma_lookup_step("avifChannelIndex"@, 0);
}

/// The lookup finds `avifResult` at its entry.
proof fn lemma_lookup_result()
    ensures
        allowlisted_from("avifResult"@, 0) == Some(DeriveSet::NewtypeEnum),
{
    assert(allowlist_entry_spec(0).0 != "avifResult"@) by {
        reveal_strlit("avifPlanesFlag");
        reveal_strlit("avifResult");
        assert("avifPlanesFlag"@.len() != "avifResult"@.len());
    }
    lemma_lookup_step("avifResult"@, 0);
    assert(allowlist_entry_spec(1).0 != "avifResult"@) by {
        reveal_strlit("avifChannelIndex");
        reveal_strlit("avifResult");
        assert("avifChannelIndex"@.len() != "avifResult"@.len());
    }
    lemma_lookup_step("avifResult"@, 1);
}

/// The lookup finds `avifHeaderFormat` at its entry.
proof fn lemma_lookup_header_format()
    ensures
        allowlisted_from("avifHeaderFormat"@, 0) == Some(DeriveSet::NewtypeEnum),
{
    assert(allowlist_entry_spec(0).0 != "avifHeaderFormat"@) by {
        reveal_strlit("avifPlanesFlag");
        reveal_strlit("avifHeaderFormat");
        assert("avifPlanesFlag"@.len() != "avifHeaderFormat"@.len());
    }
    lemma_lookup_step("avifHeaderFormat"@, 0);
    assert(allowlist_entry_spec(1).0 != "avifHeaderFormat"@) by {
        reveal_strlit("avifChannelIndex");
        reveal_strlit("avifHeaderFormat");
        assert("avifChannelIndex"@[4] != "avifHeaderFormat"@[4]);
    }
    lemma_lookup_step("avifHeaderFormat"@, 1);
    assert(allowlist_entry_spec(2).0 != "avifHeaderFormat"@) by {
        reveal_strlit("avifResult");
        reveal_strlit("avifHeaderFormat");
        assert("avifResult"@.len() != "avifHeaderFormat"@.len());
    }
    lemma_lookup_step("avifHeaderFormat"@, 2);
}

/// The lookup finds `avifPixelFormat` at its entry.
proof fn lemma_lookup_pixel_format()
    ensures
        allowlisted_from("avifPixelFormat"@, 0) == Some(DeriveSet::NewtypeEnum),
{
    assert(allowlist_entry_spec(0).0 != "avifPixelFormat"@) by {
        reveal_strlit("avifPlanesFlag");
        reveal_strlit("avifPixelFormat");
        assert("avifPlanesFlag"@.len() != "avifPixelFormat"@.len());
    }
    lemma_lookup_step("avifPixelFormat"@, 0);
    assert(allowlist_entry_spec(1).0 != "avifPixelFormat"@) by {
        reveal_strlit("avifChannelIndex");
        reveal_strlit("avifPixelFormat");
        assert("avifChannelIndex"@.len() != "avifPixelFormat"@.len());
    }
    lemma_lookup_step("avifPixelFormat"@, 1);
    assert(allowlist_entry_spec(2).0 != "avifPixelFormat"@) by {
        reveal_strlit("avifResult");
        reveal_strlit("avifPixelFormat");
        assert("avifResult"@.len() != "avifPixelFormat"@.len());
    }
    lemma_lookup_step("avifPixelFormat"@, 2);
    assert(allowlist_entry_spec(3).0 != "avifPixelFormat"@) by {
        reveal_strlit("avifHeaderFormat");
        reveal_strlit("avifPixelFormat");
        assert("avifHeaderFormat"@.len() != "avifPixelFormat"@.len());
    }
    lemma_lookup_step("avifPixelFormat"@, 3);
}

/// The lookup finds `avifChromaSamplePosition` at its entry.
proof fn lemma_lookup_chroma_sample_position()
    ensures
        allowlisted_from("avifChromaSamplePosition"@, 0) == Some(DeriveSet::NewtypeEnum),
{
    assert(allowlist_entry_spec(0).0 != "avifChromaSamplePosition"@) by {
        reveal_strlit("avifPlanesFlag");
        reveal_strlit("avifChromaSamplePosition");
        assert("avifPlanesFlag"@.len() != "avifChromaSamplePosition"@.len());
    }
    lemma_lookup_step("avifChromaSamplePosition"@, 0);
    assert(allowlist_entry_spec(1).0 != "avifChromaSamplePosition"@) by {
        reveal_strlit("avifChannelIndex");
        reveal_strlit("avifChromaSamplePosition");
        assert("avifChannelIndex"@.len() != "avifChromaSamplePosition"@.len());
    }
    lemma_lookup_step("avifChromaSamplePosition"@, 1);
    assert(allowlist_entry_spec(2).0 != "avifChromaSamplePosition"@) by {
        reveal_strlit("avifResult");
        reveal_strlit("avifChromaSamplePosition");
        assert("avifResult"@.len() != "avifChromaSamplePosition"@.len());
    }
    lemma_lookup_step("avifChromaSamplePosition"@, 2);
    assert(allowlist_entry_spec(3).0 != "avifChromaSamplePosition"@) by {
        reveal_strlit("avifHeaderFormat");
        reveal_strlit("avifChromaSamplePosition");
        assert("avifHeaderFormat"@.len() != "avifChromaSamplePosition"@.len());
    }
    lemma_lookup_step("avifChromaSamplePosition"@, 3);
    assert(allowlist_entry_spec(4).0 != "avifChromaSamplePosition"@) by {
        reveal_strlit("avifPixelFormat");
        reveal_strlit("avifChromaSamplePosition");
        assert("avifPixelFormat"@.len() != "avifChromaSamplePosition"@.len());
    }
    lemma_lookup_step("avifChromaSamplePosition"@, 4);
}

/// The lookup finds `avifRange` at its entry.
proof fn lemma_lookup_range()
    ensures
        allowlisted_from("avifRange"@, 0) == Some(DeriveSet::NewtypeEnum),
{
    assert(allowlist_entry_spec(0).0 != "avifRange"@) by {
        reveal_strlit("avifPlanesFlag");
        reveal_strlit("avifRange");
        assert("avifPlanesFlag"@.len() != "avifRange"@.len());
    }
    lemma_lookup_step("avifRange"@, 0);
    assert(allowlist_entry_spec(1).0 != "avifRange"@) by {
        reveal_strlit("avifChannelIndex");
        reveal_strlit("avifRange");
        assert("avifChannelIndex"@.len() != "avifRange"@.len());
    }
    lemma_lookup_step("avifRange"@, 1);
    assert(allowlist_entry_spec(2).0 != "avifRange"@) by {
        reveal_strlit("avifResult");
        reveal_strlit("avifRange");
        assert("avifResult"@.len() != "avifRange"@.len());
    }
    lemma_lookup_step("avifRange"@, 2);
    assert(allowlist_entry_spec(3).0 != "avifRange"@) by {
        reveal_strlit("avifHeaderFormat");
        reveal_strlit("avifRange");
        assert("avifHeaderFormat"@.len() != "avifRange"@.len());
    }
    lemma_lookup_step("avifRange"@, 3);
    assert(allowlist_entry_spec(4).0 != "avifRange"@) by {
        reveal_strlit("avifPixelFormat");
        reveal_strlit("avifRange");
        assert("avifPixelFormat"@.len() != "avifRange"@.len());
    }
    lemma_lookup_step("avifRange"@, 4);
    assert(allowlist_entry_spec(5).0 != "avifRange"@) by {
        reveal_strlit("avifChromaSamplePosition");
        reveal_strlit("avifRange");
        assert("avifChromaSamplePosition"@.len() != "avifRange"@.len());
    }
    lemma_lookup_step("avifRange"@, 5);
}

/// The lookup finds `avifTransformFlag` at its entry.
proof fn lemma_lookup_transform_flag()
    ensures
        allowlisted_from("avifTransformFlag"@, 0) == Some(DeriveSet::NewtypeEnum),
{
    assert(allowlist_entry_spec(0).0 != "avifTransformFlag"@) by {
        reveal_strlit("avifPlanesFlag");
        reveal_strlit("avifTransformFlag");
        assert("avifPlanesFlag"@.len() != "avifTransformFlag"@.len());
    }
    lemma_lookup_step("avifTransformFlag"@, 0);
    assert(allowlist_entry_spec(1).0 != "avifTransformFlag"@) by {
        reveal_strlit("avifChannelIndex");
        reveal_strlit("avifTransformFlag");
        assert("avifChannelIndex"@.len() != "avifTransformFlag"@.len());
    }
    lemma_lookup_step("avifTransformFlag"@, 1);
    assert(allowlist_entry_spec(2).0 != "avifTransformFlag"@) by {
        reveal_strlit("avifResult");
        reveal_strlit("avifTransformFlag");
        assert("avifResult"@.len() != "avifTransformFlag"@.len());
    }
    lemma_lookup_step("avifTransformFlag"@, 2);
    assert(allowlist_entry_spec(3).0 != "avifTransformFlag"@) by {
        reveal_strlit("avifHeaderFormat");
        reveal_strlit("avifTransformFlag");
        assert("avifHeaderFormat"@.len() != "avifTransformFlag"@.len());
    }
    lemma_lookup_step("avifTransformFlag"@, 3);
    assert(allowlist_entry_spec(4).0 != "avifTransformFlag"@) by {
        reveal_strlit("avifPixelFormat");
        reveal_strlit("avifTransformFlag");
        assert("avifPixelFormat"@.len() != "avifTransformFlag"@.len());
    }
    lemma_lookup_step("avifTransformFlag"@, 4);
    assert(allowlist_entry_spec(5).0 != "avifTransformFlag"@) by {
        reveal_strlit("avifChromaSamplePosition");
        reveal_strlit("avifTransformFlag");
        assert("avifChromaSamplePosition"@.len() != "avifTransformFlag"@.len());
    }
    lemma_lookup_step("avifTransformFlag"@, 5);
    assert(allowlist_entry_spec(6).0 != "avifTransformFlag"@) by {
        reveal_strlit("avifRange");
        reveal_strlit("avifTransformFlag");
        assert("avifRange"@.len() != "avifTransformFlag"@.len());
    }
    lemma_lookup_step("avifTransformFlag"@, 6);
}

/// The lookup finds `avifSampleTransformRecipe` at its entry.
proof fn lemma_lookup_sample_transform_recipe()
    ensures
        allowlisted_from("avifSampleTransformRecipe"@, 0) == Some(DeriveSet::NewtypeEnum),
{
    assert(allowlist_entry_spec(0).0 != "avifSampleTransformRecipe"@) by {
        reveal_strlit("avifPlanesFlag");
        reveal_strlit("avifSampleTransformRecipe");
        assert("avifPlanesFlag"@.len() != "avifSampleTransformRecipe"@.len());
    }
    lemma_lookup_step("avifSampleTransformRecipe"@, 0);
    assert(allowlist_entry_spec(1).0 != "avifSampleTransformRecipe"@) by {
        reveal_strlit("avifChannelIndex");
        reveal_strlit("avifSampleTransformRecipe");
        assert("avifChannelIndex"@.len() != "avifSampleTransformRecipe"@.len());
    }
    lemma_lookup_step("avifSampleTransformRecipe"@, 1);
    assert(allowlist_entry_spec(2).0 != "avifSampleTransformRecipe"@) by {
        reveal_strlit("avifResult");
        reveal_strlit("avifSampleTransformRecipe");
        assert("avifResult"@.len() != "avifSampleTransformRecipe"@.len());
    }
    lemma_lookup_step("avifSampleTransformRecipe"@, 2);
    assert(allowlist_entry_spec(3).0 != "avifSampleTransformRecipe"@) by {
        reveal_strlit("avifHeaderFormat");
        reveal_strlit("avifSampleTransformRecipe");
        assert("avifHeaderFormat"@.len() != "avifSampleTransformRecipe"@.len());
    }
    lemma_lookup_step("avifSampleTransformRecipe"@, 3);
    assert(allowlist_entry_spec(4).0 != "avifSampleTransformRecipe"@) by {
        reveal_strlit("avifPixelFormat");
        reveal_strlit("avifSampleTransformRecipe");
        assert("avifPixelFormat"@.len() != "avifSampleTransformRecipe"@.len());
    }
    lemma_lookup_step("avifSampleTransformRecipe"@, 4);
    assert(allowlist_entry_spec(5).0 != "avifSampleTransformRecipe"@) by {
        reveal_strlit("avifChromaSamplePosition");
        reveal_strlit("avifSampleTransformRecipe");
        assert("avifChromaSamplePosition"@.len() != "avifSampleTransformRecipe"@.len());
    }
    lemma_lookup_step("avifSampleTransformRecipe"@, 5);
    assert(allowlist_entry_spec(6).0 != "avifSampleTransformRecipe"@) by {
        reveal_strlit("avifRange");
        reveal_strlit("avifSampleTransformRecipe");
        assert("avifRange"@.len() != "avifSampleTransformRecipe"@.len());
    }
    lemma_lookup_step("avifSampleTransformRecipe"@, 6);
    assert(allowlist_entry_spec(7).0 != "avifSampleTransformRecipe"@) by {
        reveal_strlit("avifTransformFlag");
        reveal_strlit("avifSampleTransformRecipe");
        assert("avifTransformFlag"@.len() != "avifSampleTransformRecipe"@.len());
    }
    lemma_lookup_step("avifSampleTransformRecipe"@, 7);
}

/// The lookup finds `avifRGBFormat` at its entry.
proof fn lemma_lookup_r_g_b_format()
    ensures
        allowlisted_from("avifRGBFormat"@, 0) == Some(DeriveSet::NewtypeEnum),
{
    assert(allowlist_entry_spec(0).0 != "avifRGBFormat"@) by {
        reveal_strlit("avifPlanesFlag");
        reveal_strlit("avifRGBFormat");
        assert("avifPlanesFlag"@.len() != "avifRGBFormat"@.len());
    }
    lemma_lookup_step("avifRGBFormat"@, 0);
    assert(allowlist_entry_spec(1).0 != "avifRGBFormat"@) by {
        reveal_strlit("avifChannelIndex");
        reveal_strlit("avifRGBFormat");
        assert("avifChannelIndex"@.len() != "avifRGBFormat"@.len());
    }
    lemma_lookup_step("avifRGBFormat"@, 1);
    assert(allowlist_entry_spec(2).0 != "avifRGBFormat"@) by {
        reveal_strlit("avifResult");
        reveal_strlit("avifRGBFormat");
        assert("avifResult"@.len() != "avifRGBFormat"@.len());
    }
    lemma_lookup_step("avifRGBFormat"@, 2);
    assert(allowlist_entry_spec(3).0 != "avifRGBFormat"@) by {
        reveal_strlit("avifHeaderFormat");
        reveal_strlit("avifRGBFormat");
        assert("avifHeaderFormat"@.len() != "avifRGBFormat"@.len());
    }
    lemma_lookup_step("avifRGBFormat"@, 3);
    assert(allowlist_entry_spec(4).0 != "avifRGBFormat"@) by {
        reveal_strlit("avifPixelFormat");
        reveal_strlit("avifRGBFormat");
        assert("avifPixelFormat"@.len() != "avifRGBFormat"@.len());
    }
    lemma_lookup_step("avifRGBFormat"@, 4);
    assert(allowlist_entry_spec(5).0 != "avifRGBFormat"@) by {
        reveal_strlit("avifChromaSamplePosition");
        reveal_strlit("avifRGBFormat");
        assert("avifChromaSamplePosition"@.len() != "avifRGBFormat"@.len());
    }
    lemma_lookup_step("avifRGBFormat"@, 5);
    assert(allowlist_entry_spec(6).0 != "avifRGBFormat"@) by {
        reveal_strlit("avifRange");
        reveal_strlit("avifRGBFormat");
        assert("avifRange"@.len() != "avifRGBFormat"@.len());
    }
    lemma_lookup_step("avifRGBFormat"@, 6);
    assert(allowlist_entry_spec(7).0 != "avifRGBFormat"@) by {
        reveal_strlit("avifTransformFlag");
        reveal_strlit("avifRGBFormat");
        assert("avifTransformFlag"@.len() != "avifRGBFormat"@.len());
    }
    lemma_lookup_step("avifRGBFormat"@, 7);
    assert(allowlist_entry_spec(8).0 != "avifRGBFormat"@) by {
        reveal_strlit("avifSampleTransformRecipe");
        reveal_strlit("avifRGBFormat");
        assert("avifSampleTransformRecipe"@.len() != "avifRGBFormat"@.len());
    }
    lemma_lookup_step("avifRGBFormat"@, 8);
}

/// The lookup finds `avifChromaUpsampling` at its entry.
proof fn lemma_lookup_chroma_upsampling()
    ensures
        allowlisted_from("avifChromaUpsampling"@, 0) == Some(DeriveSet::NewtypeEnum),
{
    assert(allowlist_entry_spec(0).0 != "avifChromaUpsampling"@) by {
        reveal_strlit("avifPlanesFlag");
        reveal_strlit("avifChromaUpsampling");
        assert("avifPlanesFlag"@.len() != "avifChromaUpsampling"@.len());
    }
    lemma_lookup_step("avifChromaUpsampling"@, 0);
    assert(allowlist_entry_spec(1).0 != "avifChromaUpsampling"@) by {
        reveal_strlit("avifChannelIndex");
        reveal_strlit("avifChromaUpsampling");
        assert("avifChannelIndex"@.len() != "avifChromaUpsampling"@.len());
    }
    lemma_lookup_step("avifChromaUpsampling"@, 1);
    assert(allowlist_entry_spec(2).0 != "avifChromaUpsampling"@) by {
        reveal_strlit("avifResult");
        reveal_strlit("avifChromaUpsampling");
        assert("avifResult"@.len() != "avifChromaUpsampling"@.len());
    }
    lemma_lookup_step("avifChromaUpsampling"@, 2);
    assert(allowlist_entry_spec(3).0 != "avifChromaUpsampling"@) by {
        reveal_strlit("avifHeaderFormat");
        reveal_strlit("avifChromaUpsampling");
        assert("avifHeaderFormat"@.len() != "avifChromaUpsampling"@.len());
    }
    lemma_lookup_step("avifChromaUpsampling"@, 3);
    assert(allowlist_entry_spec(4).0 != "avifChromaUpsampling"@) by {
        reveal_strlit("avifPixelFormat");
        reveal_strlit("avifChromaUpsampling");
        assert("avifPixelFormat"@.len() != "avifChromaUpsampling"@.len());
    }
    lemma_lookup_step("avifChromaUpsampling"@, 4);
    assert(allowlist_entry_spec(5).0 != "avifChromaUpsampling"@) by {
        reveal_strlit("avifChromaSamplePosition");
        reveal_strlit("avifChromaUpsampling");
        assert("avifChromaSamplePosition"@.len() != "avifChromaUpsampling"@.len());
    }
    lemma_lookup_step("avifChromaUpsampling"@, 5);
    assert(allowlist_entry_spec(6).0 != "avifChromaUpsampling"@) by {
        reveal_strlit("avifRange");
        reveal_strlit("avifChromaUpsampling");
        assert("avifRange"@.len() != "avifChromaUpsampling"@.len());
    }
    lemma_lookup_step("avifChromaUpsampling"@, 6);
    assert(allowlist_entry_spec(7).0 != "avifChromaUpsampling"@) by {
        reveal_strlit("avifTransformFlag");
        reveal_strlit("avifChromaUpsampling");
        assert("avifTransformFlag"@.len() != "avifChromaUpsampling"@.len());
    }
    lemma_lookup_step("avifChromaUpsampling"@, 7);
    assert(allowlist_entry_spec(8).0 != "avifChromaUpsampling"@) by {
        reveal_strlit("avifSampleTransformRecipe");
        reveal_strlit("avifChromaUpsampling");
        assert("avifSampleTransformRecipe"@.len() != "avifChromaUpsampling"@.len());
    }
    lemma_lookup_step("avifChromaUpsampling"@, 8);
    assert(allowlist_entry_spec(9).0 != "avifChromaUpsampling"@) by {
        reveal_strlit("avifRGBFormat");
        reveal_strlit("avifChromaUpsampling");
        assert("avifRGBFormat"@.len() != "avifChromaUpsampling"@.len());
    }
    lemma_lookup_step("avifChromaUpsampling"@, 9);
}

/// The lookup finds `avifChromaDownsampling` at its entry.
proof fn lemma_lookup_chroma_downsampling()
    ensures
        allowlisted_from("avifChromaDownsampling"@, 0) == Some(DeriveSet::NewtypeEnum),
{
    assert(allowlist_entry_spec(0).0 != "avifChromaDownsampling"@) by {
        reveal_strlit("avifPlanesFlag");
        reveal_strlit("avifChromaDownsampling");
        assert("avifPlanesFlag"@.len() != "avifChromaDownsampling"@.len());
    }
    lemma_lookup_step("avifChromaDownsampling"@, 0);
    assert(allowlist_entry_spec(1).0 != "avifChromaDownsampling"@) by {
        reveal_strlit("avifChannelIndex");
        reveal_strlit("avifChromaDownsampling");
        assert("avifChannelIndex"@.len() != "avifChromaDownsampling"@.len());
    }
    lemma_lookup_step("avifChromaDownsampling"@, 1);
    assert(allowlist_entry_spec(2).0 != "avifChromaDownsampling"@) by {
        reveal_strlit("avifResult");
        reveal_strlit("avifChromaDownsampling");
        assert("avifResult"@.len() != "avifChromaDownsampling"@.len());
    }
    lemma_lookup_step("avifChromaDownsampling"@, 2);
    assert(allowlist_entry_spec(3).0 != "avifChromaDownsampling"@) by {
        reveal_strlit("avifHeaderFormat");
        reveal_strlit("avifChromaDownsampling");
        assert("avifHeaderFormat"@.len() != "avifChromaDownsampling"@.len());
    }
    lemma_lookup_step("avifChromaDownsampling"@, 3);
    assert(allowlist_entry_spec(4).0 != "avifChromaDownsampling"@) by {
        reveal_strlit("avifPixelFormat");
        reveal_strlit("avifChromaDownsampling");
        assert("avifPixelFormat"@.len() != "avifChromaDownsampling"@.len());
    }
    lemma_lookup_step("avifChromaDownsampling"@, 4);
    assert(allowlist_entry_spec(5).0 != "avifChromaDownsampling"@) by {
        reveal_strlit("avifChromaSamplePosition");
        reveal_strlit("avifChromaDownsampling");
        assert("avifChromaSamplePosition"@.len() != "avifChromaDownsampling"@.len());
    }
    lemma_lookup_step("avifChromaDownsampling"@, 5);
    assert(allowlist_entry_spec(6).0 != "avifChromaDownsampling"@) by {
        reveal_strlit("avifRange");
        reveal_strlit("avifChromaDownsampling");
        assert("avifRange"@.len() != "avifChromaDownsampling"@.len());
    }
    lemma_lookup_step("avifChromaDownsampling"@, 6);
    assert(allowlist_entry_spec(7).0 != "avifChromaDownsampling"@) by {
        reveal_strlit("avifTransformFlag");
        reveal_strlit("avifChromaDownsampling");
        assert("avifTransformFlag"@.len() != "avifChromaDownsampling"@.len());
    }
    lemma_lookup_step("avifChromaDownsampling"@, 7);
    assert(allowlist_entry_spec(8).0 != "avifChromaDownsampling"@) by {
        reveal_strlit("avifSampleTransformRecipe");
        reveal_strlit("avifChromaDownsampling");
        assert("avifSampleTransformRecipe"@.len() != "avifChromaDownsampling"@.len());
    }
    lemma_lookup_step("avifChromaDownsampling"@, 8);
    assert(allowlist_entry_spec(9).0 != "avifChromaDownsampling"@) by {
        reveal_strlit("avifRGBFormat");
        reveal_strlit("avifChromaDownsampling");
        assert("avifRGBFormat"@.len() != "avifChromaDownsampling"@.len());
    }
    lemma_lookup_step("avifChromaDownsampling"@, 9);
    assert(allowlist_entry_spec(10).0 != "avifChromaDownsampling"@) by {
        reveal_strlit("avifChromaUpsampling");
        reveal_strlit("avifChromaDownsampling");
        assert("avifChromaUpsampling"@.len() != "avifChromaDownsampling"@.len());
    }
    lemma_lookup_step("avifChromaDownsampling"@, 10);
}

/// The lookup finds `avifCodecChoice` at its entry.
proof fn lemma_lookup_codec_choice()
    ensures
        allowlisted_from("avifCodecChoice"@, 0) == Some(DeriveSet::NewtypeEnum),
{
    assert(allowlist_entry_spec(0).0 != "avifCodecChoice"@) by {
        reveal_strlit("avifPlanesFlag");
        reveal_strlit("avifCodecChoice");
        assert("avifPlanesFlag"@.len() != "avifCodecChoice"@.len());
    }
    lemma_lookup_step("avifCodecChoice"@, 0);
    assert(allowlist_entry_spec(1).0 != "avifCodecChoice"@) by {
        reveal_strlit("avifChannelIndex");
        reveal_strlit("avifCodecChoice");
        assert("avifChannelIndex"@.len() != "avifCodecChoice"@.len());
    }
    lemma_lookup_step("avifCodecChoice"@, 1);
    assert(allowlist_entry_spec(2).0 != "avifCodecChoice"@) by {
        reveal_strlit("avifResult");
        reveal_strlit("avifCodecChoice");
        assert("avifResult"@.len() != "avifCodecChoice"@.len());
    }
    lemma_lookup_step("avifCodecChoice"@, 2);
    assert(allowlist_entry_spec(3).0 != "avifCodecChoice"@) by {
        reveal_strlit("avifHeaderFormat");
        reveal_strlit("avifCodecChoice");
        assert("avifHeaderFormat"@.len() != "avifCodecChoice"@.len());
    }
    lemma_lookup_step("avifCodecChoice"@, 3);
    assert(allowlist_entry_spec(4).0 != "avifCodecChoice"@) by {
        reveal_strlit("avifPixelFormat");
        reveal_strlit("avifCodecChoice");
        assert("avifPixelFormat"@[4] != "avifCodecChoice"@[4]);
    }
    lemma_lookup_step("avifCodecChoice"@, 4);
    assert(allowlist_entry_spec(5).0 != "avifCodecChoice"@) by {
        reveal_strlit("avifChromaSamplePosition");
        reveal_strlit("avifCodecChoice");
        assert("avifChromaSamplePosition"@.len() != "avifCodecChoice"@.len());
    }
    lemma_lookup_step("avifCodecChoice"@, 5);
    assert(allowlist_entry_spec(6).0 != "avifCodecChoice"@) by {
        reveal_strlit("avifRange");
        reveal_strlit("avifCodecChoice");
        assert("avifRange"@.len() != "avifCodecChoice"@.len());
    }
    lemma_lookup_step("avifCodecChoice"@, 6);
    assert(allowlist_entry_spec(7).0 != "avifCodecChoice"@) by {
        reveal_strlit("avifTransformFlag");
        reveal_strlit("avifCodecChoice");
        assert("avifTransformFlag"@.len() != "avifCodecChoice"@.len());
    }
    lemma_lookup_step("avifCodecChoice"@, 7);
    assert(allowlist_entry_spec(8).0 != "avifCodecChoice"@) by {
        reveal_strlit("avifSampleTransformRecipe");
        reveal_strlit("avifCodecChoice");
        assert("avifSampleTransformRecipe"@.len() != "avifCodecChoice"@.len());
    }
    lemma_lookup_step("avifCodecChoice"@, 8);
    assert(allowlist_entry_spec(9).0 != "avifCodecChoice"@) by {
        reveal_strlit("avifRGBFormat");
        reveal_strlit("avifCodecChoice");
        assert("avifRGBFormat"@.len() != "avifCodecChoice"@.len());
    }
    lemma_lookup_step("avifCodecChoice"@, 9);
    assert(allowlist_entry_spec(10).0 != "avifCodecChoice"@) by {
        reveal_strlit("avifChromaUpsampling");
        reveal_strlit("avifCodecChoice");
        assert("avifChromaUpsampling"@.len() != "avifCodecChoice"@.len());
    }
    lemma_lookup_step("avifCodecChoice"@, 10);
    assert(allowlist_entry_spec(11).0 != "avifCodecChoice"@) by {
        reveal_strlit("avifChromaDownsampling");
        reveal_strlit("avifCodecChoice");
        assert("avifChromaDownsampling"@.len() != "avifCodecChoice"@.len());
    }
    lemma_lookup_step("avifCodecChoice"@, 11);
}

/// The lookup finds `avifCodecFlag` at its entry.
proof fn lemma_lookup_codec_flag()
    ensures
        allowlisted_from("avifCodecFlag"@, 0) == Some(DeriveSet::NewtypeEnum),
{
    assert(allowlist_entry_spec(0).0 != "avifCodecFlag"@) by {
        reveal_strlit("avifPlanesFlag");
        reveal_strlit("avifCodecFlag");
        assert("avifPlanesFlag"@.len() != "avifCodecFlag"@.len());
    }
    lemma_lookup_step("avifCodecFlag"@, 0);
    assert(allowlist_entry_spec(1).0 != "avifCodecFlag"@) by {
        reveal_strlit("avifChannelIndex");
        reveal_strlit("avifCodecFlag");
        assert("avifChannelIndex"@.len() != "avifCodecFlag"@.len());
    }
    lemma_lookup_step("avifCodecFlag"@, 1);
    assert(allowlist_entry_spec(2).0 != "avifCodecFlag"@) by {
        reveal_strlit("avifResult");
        reveal_strlit("avifCodecFlag");
        assert("avifResult"@.len() != "avifCodecFlag"@.len());
    }
    lemma_lookup_step("avifCodecFlag"@, 2);
    assert(allowlist_entry_spec(3).0 != "avifCodecFlag"@) by {
        reveal_strlit("avifHeaderFormat");
        reveal_strlit("avifCodecFlag");
        assert("avifHeaderFormat"@.len() != "avifCodecFlag"@.len());
    }
    lemma_lookup_step("avifCodecFlag"@, 3);
    assert(allowlist_entry_spec(4).0 != "avifCodecFlag"@) by {
        reveal_strlit("avifPixelFormat");
        reveal_strlit("avifCodecFlag");
        assert("avifPixelFormat"@.len() != "avifCodecFlag"@.len());
    }
    lemma_lookup_step("avifCodecFlag"@, 4);
    assert(allowlist_entry_spec(5).0 != "avifCodecFlag"@) by {
        reveal_strlit("avifChromaSamplePosition");
        reveal_strlit("avifCodecFlag");
        assert("avifChromaSamplePosition"@.len() != "avifCodecFlag"@.len());
    }
    lemma_lookup_step("avifCodecFlag"@, 5);
    assert(allowlist_entry_spec(6).0 != "avifCodecFlag"@) by {
        reveal_strlit("avifRange");
        reveal_strlit("avifCodecFlag");
        assert("avifRange"@.len() != "avifCodecFlag"@.len());
    }
    lemma_lookup_step("avifCodecFlag"@, 6);
    assert(allowlist_entry_spec(7).0 != "avifCodecFlag"@) by {
        reveal_strlit("avifTransformFlag");
        reveal_strlit("avifCodecFlag");
        assert("avifTransformFlag"@.len() != "avifCodecFlag"@.len());
    }
    lemma_lookup_step("avifCodecFlag"@, 7);
    assert(allowlist_entry_spec(8).0 != "avifCodecFlag"@) by {
        reveal_strlit("avifSampleTransformRecipe");
        reveal_strlit("avifCodecFlag");
        assert("avifSampleTransformRecipe"@.len() != "avifCodecFlag"@.len());
    }
    lemma_lookup_step("avifCodecFlag"@, 8);
    assert(allowlist_entry_spec(9).0 != "avifCodecFlag"@) by {
        reveal_strlit("avifRGBFormat");
        reveal_strlit("avifCodecFlag");
        assert("avifRGBFormat"@[4] != "avifCodecFlag"@[4]);
    }
    lemma_lookup_step("avifCodecFlag"@, 9);
    assert(allowlist_entry_spec(10).0 != "avifCodecFlag"@) by {
        reveal_strlit("avifChromaUpsampling");
        reveal_strlit("avifCodecFlag");
        assert("avifChromaUpsampling"@.len() != "avifCodecFlag"@.len());
    }
    lemma_lookup_step("avifCodecFlag"@, 10);
    assert(allowlist_entry_spec(11).0 != "avifCodecFlag"@) by {
        reveal_strlit("avifChromaDownsampling");
        reveal_strlit("avifCodecFlag");
        assert("avifChromaDownsampling"@.len() != "avifCodecFlag"@.len());
    }
    lemma_lookup_step("avifCodecFlag"@, 11);
    assert(allowlist_entry_spec(12).0 != "avifCodecFlag"@) by {
        reveal_strlit("avifCodecChoice");
        reveal_strlit("avifCodecFlag");
        assert("avifCodecChoice"@.len() != "avifCodecFlag"@.len());
    }
    lemma_lookup_step("avifCodecFlag"@, 12);
}

/// The lookup finds `avifStrictFlag` at its entry.
proof fn lemma_lookup_strict_flag()
    ensures
        allowlisted_from("avifStrictFlag"@, 0) == Some(DeriveSet::NewtypeEnum),
{
    assert(allowlist_entry_spec(0).0 != "avifStrictFlag"@) by {
        reveal_strlit("avifPlanesFlag");
        reveal_strlit("avifStrictFlag");
        assert("avifPlanesFlag"@[4] != "avifStrictFlag"@[4]);
    }
    lemma_lookup_step("avifStrictFlag"@, 0);
    assert(allowlist_entry_spec(1).0 != "avifStrictFlag"@) by {
        reveal_strlit("avifChannelIndex");
        reveal_strlit("avifStrictFlag");
        assert("avifChannelIndex"@.len() != "avifStrictFlag"@.len());
    }
    lemma_lookup_step("avifStrictFlag"@, 1);
    assert(allowlist_entry_spec(2).0 != "avifStrictFlag"@) by {
        reveal_strlit("avifResult");
        reveal_strlit("avifStrictFlag");
        assert("avifResult"@.len() != "avifStrictFlag"@.len());
    }
    lemma_lookup_step("avifStrictFlag"@, 2);
    assert(allowlist_entry_spec(3).0 != "avifStrictFlag"@) by {
        reveal_strlit("avifHeaderFormat");
        reveal_strlit("avifStrictFlag");
        assert("avifHeaderFormat"@.len() != "avifStrictFlag"@.len());
    }
    lemma_lookup_step("avifStrictFlag"@, 3);
    assert(allowlist_entry_spec(4).0 != "avifStrictFlag"@) by {
        reveal_strlit("avifPixelFormat");
        reveal_strlit("avifStrictFlag");
        assert("avifPixelFormat"@.len() != "avifStrictFlag"@.len());
    }
    lemma_lookup_step("avifStrictFlag"@, 4);
    assert(allowlist_entry_spec(5).0 != "avifStrictFlag"@) by {
        reveal_strlit("avifChromaSamplePosition");
        reveal_strlit("avifStrictFlag");
        assert("avifChromaSamplePosition"@.len() != "avifStrictFlag"@.len());
    }
    lemma_lookup_step("avifStrictFlag"@, 5);
    assert(allowlist_entry_spec(6).0 != "avifStrictFlag"@) by {
        reveal_strlit("avifRange");
        reveal_strlit("avifStrictFlag");
        assert("avifRange"@.len() != "avifStrictFlag"@.len());
    }
    lemma_lookup_step("avifStrictFlag"@, 6);
    assert(allowlist_entry_spec(7).0 != "avifStrictFlag"@) by {
        reveal_strlit("avifTransformFlag");
        reveal_strlit("avifStrictFlag");
        assert("avifTransformFlag"@.len() != "avifStrictFlag"@.len());
    }
    lemma_lookup_step("avifStrictFlag"@, 7);
    assert(allowlist_entry_spec(8).0 != "avifStrictFlag"@) by {
        reveal_strlit("avifSampleTransformRecipe");
        reveal_strlit("avifStrictFlag");
        assert("avifSampleTransformRecipe"@.len() != "avifStrictFlag"@.len());
    }
    lemma_lookup_step("avifStrictFlag"@, 8);
    assert(allowlist_entry_spec(9).0 != "avifStrictFlag"@) by {
        reveal_strlit("avifRGBFormat");
        reveal_strlit("avifStrictFlag");
        assert("avifRGBFormat"@.len() != "avifStrictFlag"@.len());
    }
    lemma_lookup_step("avifStrictFlag"@, 9);
    assert(allowlist_entry_spec(10).0 != "avifStrictFlag"@) by {
        reveal_strlit("avifChromaUpsampling");
        reveal_strlit("avifStrictFlag");
        assert("avifChromaUpsampling"@.len() != "avifStrictFlag"@.len());
    }
    lemma_lookup_step("avifStrictFlag"@, 10);
    assert(allowlist_entry_spec(11).0 != "avifStrictFlag"@) by {
        reveal_strlit("avifChromaDownsampling");
        reveal_strlit("avifStrictFlag");
        assert("avifChromaDownsampling"@.len() != "avifStrictFlag"@.len());
    }
    lemma_lookup_step("avifStrictFlag"@, 11);
    assert(allowlist_entry_spec(12).0 != "avifStrictFlag"@) by {
        reveal_strlit("avifCodecChoice");
        reveal_strlit("avifStrictFlag");
        assert("avifCodecChoice"@.len() != "avifStrictFlag"@.len());
    }
    lemma_lookup_step("avifStrictFlag"@, 12);
    assert(allowlist_entry_spec(13).0 != "avifStrictFlag"@) by {
        reveal_strlit("avifCodecFlag");
        reveal_strlit("avifStrictFlag");
        assert("avifCodecFlag"@.len() != "avifStrictFlag"@.len());
    }
    lemma_lookup_step("avifStrictFlag"@, 13);
}

/// The lookup finds `avifDecoderSource` at its entry.
proof fn lemma_lookup_decoder_source()
    ensures
        allowlisted_from("avifDecoderSource"@, 0) == Some(DeriveSet::NewtypeEnum),
{
    assert(allowlist_entry_spec(0).0 != "avifDecoderSource"@) by {
        reveal_strlit("avifPlanesFlag");
        reveal_strlit("avifDecoderSource");
        assert("avifPlanesFlag"@.len() != "avifDecoderSource"@.len());
    }
    lemma_lookup_step("avifDecoderSource"@, 0);
    assert(allowlist_entry_spec(1).0 != "avifDecoderSource"@) by {
        reveal_strlit("avifChannelIndex");
        reveal_strlit("avifDecoderSource");
        assert("avifChannelIndex"@.len() != "avifDecoderSource"@.len());
    }
    lemma_lookup_step("avifDecoderSource"@, 1);
    assert(allowlist_entry_spec(2).0 != "avifDecoderSource"@) by {
        reveal_strlit("avifResult");
        reveal_strlit("avifDecoderSource");
        assert("avifResult"@.len() != "avifDecoderSource"@.len());
    }
    lemma_lookup_step("avifDecoderSource"@, 2);
    assert(allowlist_entry_spec(3).0 != "avifDecoderSource"@) by {
        reveal_strlit("avifHeaderFormat");
        reveal_strlit("avifDecoderSource");
        assert("avifHeaderFormat"@.len() != "avifDecoderSource"@.len());
    }
    lemma_lookup_step("avifDecoderSource"@, 3);
    assert(allowlist_entry_spec(4).0 != "avifDecoderSource"@) by {
        reveal_strlit("avifPixelFormat");
        reveal_strlit("avifDecoderSource");
        assert("avifPixelFormat"@.len() != "avifDecoderSource"@.len());
    }
    lemma_lookup_step("avifDecoderSource"@, 4);
    assert(allowlist_entry_spec(5).0 != "avifDecoderSource"@) by {
        reveal_strlit("avifChromaSamplePosition");
        reveal_strlit("avifDecoderSource");
        assert("avifChromaSamplePosition"@.len() != "avifDecoderSource"@.len());
    }
    lemma_lookup_step("avifDecoderSource"@, 5);
    assert(allowlist_entry_spec(6).0 != "avifDecoderSource"@) by {
        reveal_strlit("avifRange");
        reveal_strlit("avifDecoderSource");
        assert("avifRange"@.len() != "avifDecoderSource"@.len());
    }
    lemma_lookup_step("avifDecoderSource"@, 6);
    assert(allowlist_entry_spec(7).0 != "avifDecoderSource"@) by {
        reveal_strlit("avifTransformFlag");
        reveal_strlit("avifDecoderSource");
        assert("avifTransformFlag"@[4] != "avifDecoderSource"@[4]);
    }
    lemma_lookup_step("avifDecoderSource"@, 7);
    assert(allowlist_entry_spec(8).0 != "avifDecoderSource"@) by {
        reveal_strlit("avifSampleTransformRecipe");
        reveal_strlit("avifDecoderSource");
        assert("avifSampleTransformRecipe"@.len() != "avifDecoderSource"@.len());
    }
    lemma_lookup_step("avifDecoderSource"@, 8);
    assert(allowlist_entry_spec(9).0 != "avifDecoderSource"@) by {
        reveal_strlit("avifRGBFormat");
        reveal_strlit("avifDecoderSource");
        assert("avifRGBFormat"@.len() != "avifDecoderSource"@.len());
    }
    lemma_lookup_step("avifDecoderSource"@, 9);
    assert(allowlist_entry_spec(10).0 != "avifDecoderSource"@) by {
        reveal_strlit("avifChromaUpsampling");
        reveal_strlit("avifDecoderSource");
        assert("avifChromaUpsampling"@.len() != "avifDecoderSource"@.len());
    }
    lemma_lookup_step("avifDecoderSource"@, 10);
    assert(allowlist_entry_spec(11).0 != "avifDecoderSource"@) by {
        reveal_strlit("avifChromaDownsampling");
        reveal_strlit("avifDecoderSource");
        assert("avifChromaDownsampling"@.len() != "avifDecoderSource"@.len());
    }
    lemma_lookup_step("avifDecoderSource"@, 11);
    assert(allowlist_entry_spec(12).0 != "avifDecoderSource"@) by {
        reveal_strlit("avifCodecChoice");
        reveal_strlit("avifDecoderSource");
        assert("avifCodecChoice"@.len() != "avifDecoderSource"@.len());
    }
    lemma_lookup_step("avifDecoderSource"@, 12);
    assert(allowlist_entry_spec(13).0 != "avifDecoderSource"@) by {
        reveal_strlit("avifCodecFlag");
        reveal_strlit("avifDecoderSource");
        assert("avifCodecFlag"@.len() != "avifDecoderSource"@.len());
    }
    lemma_lookup_step("avifDecoderSource"@, 13);
    assert(allowlist_entry_spec(14).0 != "avifDecoderSource"@) by {
        reveal_strlit("avifStrictFlag");
        reveal_strlit("avifDecoderSource");
        assert("avifStrictFlag"@.len() != "avifDecoderSource"@.len());
    }
    lemma_lookup_step("avifDecoderSource"@, 14);
}

/// The lookup finds `avifProgressiveState` at its entry.
proof fn lemma_lookup_progressive_state()
    ensures
        allowlisted_from("avifProgressiveState"@, 0) == Some(DeriveSet::NewtypeEnum),
{
    assert(allowlist_entry_spec(0).0 != "avifProgressiveState"@) by {
        reveal_strlit("avifPlanesFlag");
        reveal_strlit("avifProgressiveState");
        assert("avifPlanesFlag"@.len() != "avifProgressiveState"@.len());
    }
    lemma_lookup_step("avifProgressiveState"@, 0);
    assert(allowlist_entry_spec(1).0 != "avifProgressiveState"@) by {
        reveal_strlit("avifChannelIndex");
        reveal_strlit("avifProgressiveState");
        assert("avifChannelIndex"@.len() != "avifProgressiveState"@.len());
    }
    lemma_lookup_step("avifProgressiveState"@, 1);
    assert(allowlist_entry_spec(2).0 != "avifProgressiveState"@) by {
        reveal_strlit("avifResult");
        reveal_strlit("avifProgressiveState");
        assert("avifResult"@.len() != "avifProgressiveState"@.len());
    }
    lemma_lookup_step("avifProgressiveState"@, 2);
    assert(allowlist_entry_spec(3).0 != "avifProgressiveState"@) by {
        reveal_strlit("avifHeaderFormat");
        reveal_strlit("avifProgressiveState");
        assert("avifHeaderFormat"@.len() != "avifProgressiveState"@.len());
    }
    lemma_lookup_step("avifProgressiveState"@, 3);
    assert(allowlist_entry_spec(4).0 != "avifProgressiveState"@) by {
        reveal_strlit("avifPixelFormat");
        reveal_strlit("avifProgressiveState");
        assert("avifPixelFormat"@.len() != "avifProgressiveState"@.len());
    }
    lemma_lookup_step("avifProgressiveState"@, 4);
    assert(allowlist_entry_spec(5).0 != "avifProgressiveState"@) by {
        reveal_strlit("avifChromaSamplePosition");
        reveal_strlit("avifProgressiveState");
        assert("avifChromaSamplePosition"@.len() != "avifProgressiveState"@.len());
    }
    lemma_lookup_step("avifProgressiveState"@, 5);
    assert(allowlist_entry_spec(6).0 != "avifProgressiveState"@) by {
        reveal_strlit("avifRange");
        reveal_strlit("avifProgressiveState");
        assert("avifRange"@.len() != "avifProgressiveState"@.len());
    }
    lemma_lookup_step("avifProgressiveState"@, 6);
    assert(allowlist_entry_spec(7).0 != "avifProgressiveState"@) by {
        reveal_strlit("avifTransformFlag");
        reveal_strlit("avifProgressiveState");
        assert("avifTransformFlag"@.len() != "avifProgressiveState"@.len());
    }
    lemma_lookup_step("avifProgressiveState"@, 7);
    assert(allowlist_entry_spec(8).0 != "avifProgressiveState"@) by {
        reveal_strlit("avifSampleTransformRecipe");
        reveal_strlit("avifProgressiveState");
        assert("avifSampleTransformRecipe"@.len() != "avifProgressiveState"@.len());
    }
    lemma_lookup_step("avifProgressiveState"@, 8);
    assert(allowlist_entry_spec(9).0 != "avifProgressiveState"@) by {
        reveal_strlit("avifRGBFormat");
        reveal_strlit("avifProgressiveState");
        assert("avifRGBFormat"@.len() != "avifProgressiveState"@.len());
    }
    lemma_lookup_step("avifProgressiveState"@, 9);
    assert(allowlist_entry_spec(10).0 != "avifProgressiveState"@) by {
        reveal_strlit("avifChromaUpsampling");
        reveal_strlit("avifProgressiveState");
        assert("avifChromaUpsampling"@[4] != "avifProgressiveState"@[4]);
    }
    lemma_lookup_step("avifProgressiveState"@, 10);
    assert(allowlist_entry_spec(11).0 != "avifProgressiveState"@) by {
        reveal_strlit("avifChromaDownsampling");
        reveal_strlit("avifProgressiveState");
        assert("avifChromaDownsampling"@.len() != "avifProgressiveState"@.len());
    }
    lemma_lookup_step("avifProgressiveState"@, 11);
    assert(allowlist_entry_spec(12).0 != "avifProgressiveState"@) by {
        reveal_strlit("avifCodecChoice");
        reveal_strlit("avifProgressiveState");
        assert("avifCodecChoice"@.len() != "avifProgressiveState"@.len());
    }
    lemma_lookup_step("avifProgressiveState"@, 12);
    assert(allowlist_entry_spec(13).0 != "avifProgressiveState"@) by {
        reveal_strlit("avifCodecFlag");
        reveal_strlit("avifProgressiveState");
        assert("avifCodecFlag"@.len() != "avifProgressiveState"@.len());
    }
    lemma_lookup_step("avifProgressiveState"@, 13);
    assert(allowlist_entry_spec(14).0 != "avifProgressiveState"@) by {
        reveal_strlit("avifStrictFlag");
        reveal_strlit("avifProgressiveState");
        assert("avifStrictFlag"@.len() != "avifProgressiveState"@.len());
    }
    lemma_lookup_step("avifProgressiveState"@, 14);
    assert(allowlist_entry_spec(15).0 != "avifProgressiveState"@) by {
        reveal_strlit("avifDecoderSource");
        reveal_strlit("avifProgressiveState");
        assert("avifDecoderSource"@.len() != "avifProgressiveState"@.len());
    }
    lemma_lookup_step("avifProgressiveState"@, 15);
}

/// The lookup finds `avifImageContentTypeFlag` at its entry.
proof fn lemma_lookup_image_content_type_flag()
    ensures
        allowlisted_from("avifImageContentTypeFlag"@, 0) == Some(DeriveSet::NewtypeEnum),
{
    assert(allowlist_entry_spec(0).0 != "avifImageContentTypeFlag"@) by {
        reveal_strlit("avifPlanesFlag");
        reveal_strlit("avifImageContentTypeFlag");
        assert("avifPlanesFlag"@.len() != "avifImageContentTypeFlag"@.len());
    }
    lemma_lookup_step("avifImageContentTypeFlag"@, 0);
    assert(allowlist_entry_spec(1).0 != "avifImageContentTypeFlag"@) by {
        reveal_strlit("avifChannelIndex");
        reveal_strlit("avifImageContentTypeFlag");
        assert("avifChannelIndex"@.len() != "avifImageContentTypeFlag"@.len());
    }
    lemma_lookup_step("avifImageContentTypeFlag"@, 1);
    assert(allowlist_entry_spec(2).0 != "avifImageContentTypeFlag"@) by {
        reveal_strlit("avifResult");
        reveal_strlit("avifImageContentTypeFlag");
        assert("avifResult"@.len() != "avifImageContentTypeFlag"@.len());
    }
    lemma_lookup_step("avifImageContentTypeFlag"@, 2);
    assert(allowlist_entry_spec(3).0 != "avifImageContentTypeFlag"@) by {
        reveal_strlit("avifHeaderFormat");
        reveal_strlit("avifImageContentTypeFlag");
        assert("avifHeaderFormat"@.len() != "avifImageContentTypeFlag"@.len());
    }
    lemma_lookup_step("avifImageContentTypeFlag"@, 3);
    assert(allowlist_entry_spec(4).0 != "avifImageContentTypeFlag"@) by {
        reveal_strlit("avifPixelFormat");
        reveal_strlit("avifImageContentTypeFlag");
        assert("avifPixelFormat"@.len() != "avifImageContentTypeFlag"@.len());
    }
    lemma_lookup_step("avifImageContentTypeFlag"@, 4);
    assert(allowlist_entry_spec(5).0 != "avifImageContentTypeFlag"@) by {
        reveal_strlit("avifChromaSamplePosition");
        reveal_strlit("avifImageContentTypeFlag");
        assert("avifChromaSamplePosition"@[4] != "avifImageContentTypeFlag"@[4]);
    }
    lemma_lookup_step("avifImageContentTypeFlag"@, 5);
    assert(allowlist_entry_spec(6).0 != "avifImageContentTypeFlag"@) by {
        reveal_strlit("avifRange");
        reveal_strlit("avifImageContentTypeFlag");
        assert("avifRange"@.len() != "avifImageContentTypeFlag"@.len());
    }
    lemma_lookup_step("avifImageContentTypeFlag"@, 6);
    assert(allowlist_entry_spec(7).0 != "avifImageContentTypeFlag"@) by {
        reveal_strlit("avifTransformFlag");
        reveal_strlit("avifImageContentTypeFlag");
        assert("avifTransformFlag"@.len() != "avifImageContentTypeFlag"@.len());
    }
    lemma_lookup_step("avifImageContentTypeFlag"@, 7);
    assert(allowlist_entry_spec(8).0 != "avifImageContentTypeFlag"@) by {
        reveal_strlit("avifSampleTransformRecipe");
        reveal_strlit("avifImageContentTypeFlag");
        assert("avifSampleTransformRecipe"@.len() != "avifImageContentTypeFlag"@.len());
    }
    lemma_lookup_step("avifImageContentTypeFlag"@, 8);
    assert(allowlist_entry_spec(9).0 != "avifImageContentTypeFlag"@) by {
        reveal_strlit("avifRGBFormat");
        reveal_strlit("avifImageContentTypeFlag");
        assert("avifRGBFormat"@.len() != "avifImageContentTypeFlag"@.len());
    }
    lemma_lookup_step("avifImageContentTypeFlag"@, 9);
    assert(allowlist_entry_spec(10).0 != "avifImageContentTypeFlag"@) by {
        reveal_strlit("avifChromaUpsampling");
        reveal_strlit("avifImageContentTypeFlag");
        assert("avifChromaUpsampling"@.len() != "avifImageContentTypeFlag"@.len());
    }
    lemma_lookup_step("avifImageContentTypeFlag"@, 10);
    assert(allowlist_entry_spec(11).0 != "avifImageContentTypeFlag"@) by {
        reveal_strlit("avifChromaDownsampling");
        reveal_strlit("avifImageContentTypeFlag");
        assert("avifChromaDownsampling"@.len() != "avifImageContentTypeFlag"@.len());
    }
    lemma_lookup_step("avifImageContentTypeFlag"@, 11);
    assert(allowlist_entry_spec(12).0 != "avifImageContentTypeFlag"@) by {
        reveal_strlit("avifCodecChoice");
        reveal_strlit("avifImageContentTypeFlag");
        assert("avifCodecChoice"@.len() != "avifImageContentTypeFlag"@.len());
    }
    lemma_lookup_step("avifImageContentTypeFlag"@, 12);
    assert(allowlist_entry_spec(13).0 != "avifImageContentTypeFlag"@) by {
        reveal_strlit("avifCodecFlag");
        reveal_strlit("avifImageContentTypeFlag");
        assert("avifCodecFlag"@.len() != "avifImageContentTypeFlag"@.len());
    }
    lemma_lookup_step("avifImageContentTypeFlag"@, 13);
    assert(allowlist_entry_spec(14).0 != "avifImageContentTypeFlag"@) by {
        reveal_strlit("avifStrictFlag");
        reveal_strlit("avifImageContentTypeFlag");
        assert("avifStrictFlag"@.len() != "avifImageContentTypeFlag"@.len());
    }
    lemma_lookup_step("avifImageContentTypeFlag"@, 14);
    assert(allowlist_entry_spec(15).0 != "avifImageContentTypeFlag"@) by {
        reveal_strlit("avifDecoderSource");
        reveal_strlit("avifImageContentTypeFlag");
        assert("avifDecoderSource"@.len() != "avifImageContentTypeFlag"@.len());
    }
    lemma_lookup_step("avifImageContentTypeFlag"@, 15);
    assert(allowlist_entry_spec(16).0 != "avifImageContentTypeFlag"@) by {
        reveal_strlit("avifProgressiveState");
        reveal_strlit("avifImageContentTypeFlag");
        assert("avifProgressiveState"@.len() != "avifImageContentTypeFlag"@.len());
    }
    lemma_lookup_step("avifImageContentTypeFlag"@, 16);
}

/// The lookup finds `avifAddImageFlag` at its entry.
proof fn lemma_lookup_add_image_flag()
    ensures
        allowlisted_from("avifAddImageFlag"@, 0) == Some(DeriveSet::NewtypeEnum),
{
    assert(allowlist_entry_spec(0).0 != "avifAddImageFlag"@) by {
        reveal_strlit("avifPlanesFlag");
        reveal_strlit("avifAddImageFlag");
        assert("avifPlanesFlag"@.len() != "avifAddImageFlag"@.len());
    }
    lemma_lookup_step("avifAddImageFlag"@, 0);
    assert(allowlist_entry_spec(1).0 != "avifAddImageFlag"@) by {
        reveal_strlit("avifChannelIndex");
        reveal_strlit("avifAddImageFlag");
        assert("avifChannelIndex"@[4] != "avifAddImageFlag"@[4]);
    }
    lemma_lookup_step("avifAddImageFlag"@, 1);
    assert(allowlist_entry_spec(2).0 != "avifAddImageFlag"@) by {
        reveal_strlit("avifResult");
        reveal_strlit("avifAddImageFlag");
        assert("avifResult"@.len() != "avifAddImageFlag"@.len());
    }
    lemma_lookup_step("avifAddImageFlag"@, 2);
    assert(allowlist_entry_spec(3).0 != "avifAddImageFlag"@) by {
        reveal_strlit("avifHeaderFormat");
        reveal_strlit("avifAddImageFlag");
        assert("avifHeaderFormat"@[4] != "avifAddImageFlag"@[4]);
    }
    lemma_lookup_step("avifAddImageFlag"@, 3);
    assert(allowlist_entry_spec(4).0 != "avifAddImageFlag"@) by {
        reveal_strlit("avifPixelFormat");
        reveal_strlit("avifAddImageFlag");
        assert("avifPixelFormat"@.len() != "avifAddImageFlag"@.len());
    }
    lemma_lookup_step("avifAddImageFlag"@, 4);
    assert(allowlist_entry_spec(5).0 != "avifAddImageFlag"@) by {
        reveal_strlit("avifChromaSamplePosition");
        reveal_strlit("avifAddImageFlag");
        assert("avifChromaSamplePosition"@.len() != "avifAddImageFlag"@.len());
    }
    lemma_lookup_step("avifAddImageFlag"@, 5);
    assert(allowlist_entry_spec(6).0 != "avifAddImageFlag"@) by {
        reveal_strlit("avifRange");
        reveal_strlit("avifAddImageFlag");
        assert("avifRange"@.len() != "avifAddImageFlag"@.len());
    }
    lemma_lookup_step("avifAddImageFlag"@, 6);
    assert(allowlist_entry_spec(7).0 != "avifAddImageFlag"@) by {
        reveal_strlit("avifTransformFlag");
        reveal_strlit("avifAddImageFlag");
        assert("avifTransformFlag"@.len() != "avifAddImageFlag"@.len());
    }
    lemma_lookup_step("avifAddImageFlag"@, 7);
    assert(allowlist_entry_spec(8).0 != "avifAddImageFlag"@) by {
        reveal_strlit("avifSampleTransformRecipe");
        reveal_strlit("avifAddImageFlag");
        assert("avifSampleTransformRecipe"@.len() != "avifAddImageFlag"@.len());
    }
    lemma_lookup_step("avifAddImageFlag"@, 8);
    assert(allowlist_entry_spec(9).0 != "avifAddImageFlag"@) by {
        reveal_strlit("avifRGBFormat");
        reveal_strlit("avifAddImageFlag");
        assert("avifRGBFormat"@.len() != "avifAddImageFlag"@.len());
    }
    lemma_lookup_step("avifAddImageFlag"@, 9);
    assert(allowlist_entry_spec(10).0 != "avifAddImageFlag"@) by {
        reveal_strlit("avifChromaUpsampling");
        reveal_strlit("avifAddImageFlag");
        assert("avifChromaUpsampling"@.len() != "avifAddImageFlag"@.len());
    }
    lemma_lookup_step("avifAddImageFlag"@, 10);
    assert(allowlist_entry_spec(11).0 != "avifAddImageFlag"@) by {
        reveal_strlit("avifChromaDownsampling");
        reveal_strlit("avifAddImageFlag");
        assert("avifChromaDownsampling"@.len() != "avifAddImageFlag"@.len());
    }
    lemma_lookup_step("avifAddImageFlag"@, 11);
    assert(allowlist_entry_spec(12).0 != "avifAddImageFlag"@) by {
        reveal_strlit("avifCodecChoice");
        reveal_strlit("avifAddImageFlag");
        assert("avifCodecChoice"@.len() != "avifAddImageFlag"@.len());
    }
    lemma_lookup_step("avifAddImageFlag"@, 12);
    assert(allowlist_entry_spec(13).0 != "avifAddImageFlag"@) by {
        reveal_strlit("avifCodecFlag");
        reveal_strlit("avifAddImageFlag");
        assert("avifCodecFlag"@.len() != "avifAddImageFlag"@.len());
    }
    lemma_lookup_step("avifAddImageFlag"@, 13);
    assert(allowlist_entry_spec(14).0 != "avifAddImageFlag"@) by {
        reveal_strlit("avifStrictFlag");
        reveal_strlit("avifAddImageFlag");
        assert("avifStrictFlag"@.len() != "avifAddImageFlag"@.len());
    }
    lemma_lookup_step("avifAddImageFlag"@, 14);
    assert(allowlist_entry_spec(15).0 != "avifAddImageFlag"@) by {
        reveal_strlit("avifDecoderSource");
        reveal_strlit("avifAddImageFlag");
        assert("avifDecoderSource"@.len() != "avifAddImageFlag"@.len());
    }
    lemma_lookup_step("avifAddImageFlag"@, 15);
    assert(allowlist_entry_spec(16).0 != "avifAddImageFlag"@) by {
        reveal_strlit("avifProgressiveState");
        reveal_strlit("avifAddImageFlag");
        assert("avifProgressiveState"@.len() != "avifAddImageFlag"@.len());
    }
    lemma_lookup_step("avifAddImageFlag"@, 16);
    assert(allowlist_entry_spec(17).0 != "avifAddImageFlag"@) by {
        reveal_strlit("avifImageContentTypeFlag");
        reveal_strlit("avifAddImageFlag");
        assert("avifImageContentTypeFlag"@.len() != "avifAddImageFlag"@.len());
    }
    lemma_lookup_step("avifAddImageFlag"@, 17);
}

/// The lookup finds `avifImageTiming` at its entry.
proof fn lemma_lookup_image_timing()
    ensures
        allowlisted_from("avifImageTiming"@, 0) == Some(DeriveSet::FloatData),
{
    assert(allowlist_entry_spec(0).0 != "avifImageTiming"@) by {
        reveal_strlit("avifPlanesFlag");
        reveal_strlit("avifImageTiming");
        assert("avifPlanesFlag"@.len() != "avifImageTiming"@.len());
    }
    lemma_lookup_step("avifImageTiming"@, 0);
    assert(allowlist_entry_spec(1).0 != "avifImageTiming"@) by {
        reveal_strlit("avifChannelIndex");
        reveal_strlit("avifImageTiming");
        assert("avifChannelIndex"@.len() != "avifImageTiming"@.len());
    }
    lemma_lookup_step("avifImageTiming"@, 1);
    assert(allowlist_entry_spec(2).0 != "avifImageTiming"@) by {
        reveal_strlit("avifResult");
        reveal_strlit("avifImageTiming");
        assert("avifResult"@.len() != "avifImageTiming"@.len());
    }
    lemma_lookup_step("avifImageTiming"@, 2);
    assert(allowlist_entry_spec(3).0 != "avifImageTiming"@) by {
        reveal_strlit("avifHeaderFormat");
        reveal_strlit("avifImageTiming");
        assert("avifHeaderFormat"@.len() != "avifImageTiming"@.len());
    }
    lemma_lookup_step("avifImageTiming"@, 3);
    assert(allowlist_entry_spec(4).0 != "avifImageTiming"@) by {
        reveal_strlit("avifPixelFormat");
        reveal_strlit("avifImageTiming");
        assert("avifPixelFormat"@[4] != "avifImageTiming"@[4]);
    }
    lemma_lookup_step("avifImageTiming"@, 4);
    assert(allowlist_entry_spec(5).0 != "avifImageTiming"@) by {
        reveal_strlit("avifChromaSamplePosition");
        reveal_strlit("avifImageTiming");
        assert("avifChromaSamplePosition"@.len() != "avifImageTiming"@.len());
    }
    lemma_lookup_step("avifImageTiming"@, 5);
    assert(allowlist_entry_spec(6).0 != "avifImageTiming"@) by {
        reveal_strlit("avifRange");
        reveal_strlit("avifImageTiming");
        assert("avifRange"@.len() != "avifImageTiming"@.len());
    }
    lemma_lookup_step("avifImageTiming"@, 6);
    assert(allowlist_entry_spec(7).0 != "avifImageTiming"@) by {
        reveal_strlit("avifTransformFlag");
        reveal_strlit("avifImageTiming");
        assert("avifTransformFlag"@.len() != "avifImageTiming"@.len());
    }
    lemma_lookup_step("avifImageTiming"@, 7);
    assert(allowlist_entry_spec(8).0 != "avifImageTiming"@) by {
        reveal_strlit("avifSampleTransformRecipe");
        reveal_strlit("avifImageTiming");
        assert("avifSampleTransformRecipe"@.len() != "avifImageTiming"@.len());
    }
    lemma_lookup_step("avifImageTiming"@, 8);
    assert(allowlist_entry_spec(9).0 != "avifImageTiming"@) by {
        reveal_strlit("avifRGBFormat");
        reveal_strlit("avifImageTiming");
        assert("avifRGBFormat"@.len() != "avifImageTiming"@.len());
    }
    lemma_lookup_step("avifImageTiming"@, 9);
    assert(allowlist_entry_spec(10).0 != "avifImageTiming"@) by {
        reveal_strlit("avifChromaUpsampling");
        reveal_strlit("avifImageTiming");
        assert("avifChromaUpsampling"@.len() != "avifImageTiming"@.len());
    }
    lemma_lookup_step("avifImageTiming"@, 10);
    assert(allowlist_entry_spec(11).0 != "avifImageTiming"@) by {
        reveal_strlit("avifChromaDownsampling");
        reveal_strlit("avifImageTiming");
        assert("avifChromaDownsampling"@.len() != "avifImageTiming"@.len());
    }
    lemma_lookup_step("avifImageTiming"@, 11);
    assert(allowlist_entry_spec(12).0 != "avifImageTiming"@) by {
        reveal_strlit("avifCodecChoice");
        reveal_strlit("avifImageTiming");
        assert("avifCodecChoice"@[4] != "avifImageTiming"@[4]);
    }
    lemma_lookup_step("avifImageTiming"@, 12);
    assert(allowlist_entry_spec(13).0 != "avifImageTiming"@) by {
        reveal_strlit("avifCodecFlag");
        reveal_strlit("avifImageTiming");
        assert("avifCodecFlag"@.len() != "avifImageTiming"@.len());
    }
    lemma_lookup_step("avifImageTiming"@, 13);
    assert(allowlist_entry_spec(14).0 != "avifImageTiming"@) by {
        reveal_strlit("avifStrictFlag");
        reveal_strlit("avifImageTiming");
        assert("avifStrictFlag"@.len() != "avifImageTiming"@.len());
    }
    lemma_lookup_step("avifImageTiming"@, 14);
    assert(allowlist_entry_spec(15).0 != "avifImageTiming"@) by {
        reveal_strlit("avifDecoderSource");
        reveal_strlit("avifImageTiming");
        assert("avifDecoderSource"@.len() != "avifImageTiming"@.len());
    }
    lemma_lookup_step("avifImageTiming"@, 15);
    assert(allowlist_entry_spec(16).0 != "avifImageTiming"@) by {
        reveal_strlit("avifProgressiveState");
        reveal_strlit("avifImageTiming");
        assert("avifProgressiveState"@.len() != "avifImageTiming"@.len());
    }
    lemma_lookup_step("avifImageTiming"@, 16);
    assert(allowlist_entry_spec(17).0 != "avifImageTiming"@) by {
        reveal_strlit("avifImageContentTypeFlag");
        reveal_strlit("avifImageTiming");
        assert("avifImageContentTypeFlag"@.len() != "avifImageTiming"@.len());
    }
    lemma_lookup_step("avifImageTiming"@, 17);
    assert(allowlist_entry_spec(18).0 != "avifImageTiming"@) by {
        reveal_strlit("avifAddImageFlag");
        reveal_strlit("avifImageTiming");
        assert("avifAddImageFlag"@.len() != "avifImageTiming"@.len());
    }
    lemma_lookup_step("avifImageTiming"@, 18);
    assert(allowlist_entry_spec(19).0 != "avifImageTiming"@) by {
        reveal_strlit("avifPixelFormatInfo");
        reveal_strlit("avifImageTiming");
        assert("avifPixelFormatInfo"@.len() != "avifImageTiming"@.len());
    }
    lemma_lookup_step("avifImageTiming"@, 19);
    assert(allowlist_entry_spec(20).0 != "avifImageTiming"@) by {
        reveal_strlit("avifDiagnostics");
        reveal_strlit("avifImageTiming");
        assert("avifDiagnostics"@[4] != "avifImageTiming"@[4]);
    }
    lemma_lookup_step("avifImageTiming"@, 20);
    assert(allowlist_entry_spec(21).0 != "avifImageTiming"@) by {
        reveal_strlit("avifFraction");
        reveal_strlit("avifImageTiming");
        assert("avifFraction"@.len() != "avifImageTiming"@.len());
    }
    lemma_lookup_step("avifImageTiming"@, 21);
    assert(allowlist_entry_spec(22).0 != "avifImageTiming"@) by {
        reveal_strlit("avifSignedFraction");
        reveal_strlit("avifImageTiming");
        assert("avifSignedFraction"@.len() != "avifImageTiming"@.len());
    }
    lemma_lookup_step("avifImageTiming"@, 22);
    assert(allowlist_entry_spec(23).0 != "avifImageTiming"@) by {
        reveal_strlit("avifUnsignedFraction");
        reveal_strlit("avifImageTiming");
        assert("avifUnsignedFraction"@.len() != "avifImageTiming"@.len());
    }
    lemma_lookup_step("avifImageTiming"@, 23);
    assert(allowlist_entry_spec(24).0 != "avifImageTiming"@) by {
        reveal_strlit("avifPixelAspectRatioBox");
        reveal_strlit("avifImageTiming");
        assert("avifPixelAspectRatioBox"@.len() != "avifImageTiming"@.len());
    }
    lemma_lookup_step("avifImageTiming"@, 24);
    assert(allowlist_entry_spec(25).0 != "avifImageTiming"@) by {
        reveal_strlit("avifCleanApertureBox");
        reveal_strlit("avifImageTiming");
        assert("avifCleanApertureBox"@.len() != "avifImageTiming"@.len());
    }
    lemma_lookup_step("avifImageTiming"@, 25);
    assert(allowlist_entry_spec(26).0 != "avifImageTiming"@) by {
        reveal_strlit("avifImageRotation");
        reveal_strlit("avifImageTiming");
        assert("avifImageRotation"@.len() != "avifImageTiming"@.len());
    }
    lemma_lookup_step("avifImageTiming"@, 26);
    assert(allowlist_entry_spec(27).0 != "avifImageTiming"@) by {
        reveal_strlit("avifImageMirror");
        reveal_strlit("avifImageTiming");
        assert("avifImageMirror"@[9] != "avifImageTiming"@[9]);
    }
    lemma_lookup_step("avifImageTiming"@, 27);
    assert(allowlist_entry_spec(28).0 != "avifImageTiming"@) by {
        reveal_strlit("avifCropRect");
        reveal_strlit("avifImageTiming");
        assert("avifCropRect"@.len() != "avifImageTiming"@.len());
    }
    lemma_lookup_step("avifImageTiming"@, 28);
    assert(allowlist_entry_spec(29).0 != "avifImageTiming"@) by {
        reveal_strlit("avifContentLightLevelInformationBox");
        reveal_strlit("avifImageTiming");
        assert("avifContentLightLevelInformationBox"@.len() != "avifImageTiming"@.len());
    }
    lemma_lookup_step("avifImageTiming"@, 29);
    assert(allowlist_entry_spec(30).0 != "avifImageTiming"@) by {
        reveal_strlit("avifIOStats");
        reveal_strlit("avifImageTiming");
        assert("avifIOStats"@.len() != "avifImageTiming"@.len());
    }
    lemma_lookup_step("avifImageTiming"@, 30);
    assert(allowlist_entry_spec(31).0 != "avifImageTiming"@) by {
        reveal_strlit("avifExtent");
        reveal_strlit("avifImageTiming");
        assert("avifExtent"@.len() != "avifImageTiming"@.len());
    }
    lemma_lookup_step("avifImageTiming"@, 31);
    assert(allowlist_entry_spec(32).0 != "avifImageTiming"@) by {
        reveal_strlit("avifScalingMode");
        reveal_strlit("avifImageTiming");
        assert("avifScalingMode"@[4] != "avifImageTiming"@[4]);
    }
    lemma_lookup_step("avifImageTiming"@, 32);
}

pub proof fn lemma_reviewed_derives()
    ensures
        DeriveSet::PlainData.names_spec() == seq![
            "Copy"@,
            "Clone"@,
            "Hash"@,
            "PartialOrd"@,
            "Ord"@,
            "PartialEq"@,
            "Eq"@,
        ],
        DeriveSet::FloatData.names_spec() == seq!["Copy"@, "Clone"@, "PartialOrd"@, "PartialEq"@],
        DeriveSet::NewtypeEnum.names_spec() == seq!["Copy"@, "PartialOrd"@, "Ord"@],
        allowlisted_from("avifPixelFormatInfo"@, 0) == Some(DeriveSet::PlainData),
        allowlisted_from("avifDiagnostics"@, 0) == Some(DeriveSet::PlainData),
        allowlisted_from("avifFraction"@, 0) == Some(DeriveSet::PlainData),
        allowlisted_from("avifSignedFraction"@, 0) == Some(DeriveSet::PlainData),
        allowlisted_from("avifUnsignedFraction"@, 0) == Some(DeriveSet::PlainData),
        allowlisted_from("avifPixelAspectRatioBox"@, 0) == Some(DeriveSet::PlainData),
        allowlisted_from("avifCleanApertureBox"@, 0) == Some(DeriveSet::PlainData),
        allowlisted_from("avifImageRotation"@, 0) == Some(DeriveSet::PlainData),
        allowlisted_from("avifImageMirror"@, 0) == Some(DeriveSet::PlainData),
        allowlisted_from("avifCropRect"@, 0) == Some(DeriveSet::PlainData),
        allowlisted_from("avifContentLightLevelInformationBox"@, 0) == Some(DeriveSet::PlainData),
        allowlisted_from("avifIOStats"@, 0) == Some(DeriveSet::PlainData),
        allowlisted_from("avifExtent"@, 0) == Some(DeriveSet::PlainData),
        allowlisted_from("avifScalingMode"@, 0) == Some(DeriveSet::PlainData),
        allowlisted_from("avifPlanesFlag"@, 0) == Some(DeriveSet::NewtypeEnum),
        allowlisted_from("avifChannelIndex"@, 0) == Some(DeriveSet::NewtypeEnum),
        allowlisted_from("avifResult"@, 0) == Some(DeriveSet::NewtypeEnum),
        allowlisted_from("avifHeaderFormat"@, 0) == Some(DeriveSet::NewtypeEnum),
        allowlisted_from("avifPixelFormat"@, 0) == Some(DeriveSet::NewtypeEnum),
        allowlisted_from("avifChromaSamplePosition"@, 0) == Some(DeriveSet::NewtypeEnum),
        allowlisted_from("avifRange"@, 0) == Some(DeriveSet::NewtypeEnum),
        allowlisted_from("avifTransformFlag"@, 0) == Some(DeriveSet::NewtypeEnum),
        allowlisted_from("avifSampleTransformRecipe"@, 0) == Some(DeriveSet::NewtypeEnum),
        allowlisted_from("avifRGBFormat"@, 0) == Some(DeriveSet::NewtypeEnum),
        allowlisted_from("avifChromaUpsampling"@, 0) == Some(DeriveSet::NewtypeEnum),
        allowlisted_from("avifChromaDownsampling"@, 0) == Some(DeriveSet::NewtypeEnum),
        allowlisted_from("avifCodecChoice"@, 0) == Some(DeriveSet::NewtypeEnum),
        allowlisted_from("avifCodecFlag"@, 0) == Some(DeriveSet::NewtypeEnum),
        allowlisted_from("avifStrictFlag"@, 0) == Some(DeriveSet::NewtypeEnum),
        allowlisted_from("avifDecoderSource"@, 0) == Some(DeriveSet::NewtypeEnum),
        allowlisted_from("avifProgressiveState"@, 0) == Some(DeriveSet::NewtypeEnum),
        allowlisted_from("avifImageContentTypeFlag"@, 0) == Some(DeriveSet::NewtypeEnum),
        allowlisted_from("avifAddImageFlag"@, 0) == Some(DeriveSet::NewtypeEnum),
        allowlisted_from("avifImageTiming"@, 0) == Some(DeriveSet::FloatData),
{
    lemma_lookup_pixel_format_info();
    lemma_lookup_diagnostics();
    lemma_lookup_fraction();
    lemma_lookup_signed_fraction();
    lemma_lookup_unsigned_fraction();
    lemma_lookup_pixel_aspect_ratio_box();
    lemma_lookup_clean_aperture_box();
    lemma_lookup_image_rotation();
    lemma_lookup_image_mirror();
    lemma_lookup_crop_rect();
    lemma_lookup_content_light_level_information_box();
    lemma_lookup_i_o_stats();
    lemma_lookup_extent();
    lemma_lookup_scaling_mode();
    lemma_lookup_planes_flag();
    lemma_lookup_channel_index();
    lemma_lookup_result();
    lemma_lookup_header_format();
    lemma_lookup_pixel_format();
    lemma_lookup_chroma_sample_position();
    lemma_lookup_range();
    lemma_lookup_transform_flag();
    lemma_lookup_sample_transform_recipe();
    lemma_lookup_r_g_b_format();
    lemma_lookup_chroma_upsampling();
    lemma_lookup_chroma_downsampling();
    lemma_lookup_codec_choice();
    lemma_lookup_codec_flag();
    lemma_lookup_strict_flag();
    lemma_lookup_decoder_source();
    lemma_lookup_progressive_state();
    lemma_lookup_image_content_type_flag();
    lemma_lookup_add_image_flag();
    lemma_lookup_image_timing();
}

} // verus!
