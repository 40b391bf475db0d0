//! The artifact chain: the append-only list of generations accepted so far,
//! and the names that are derived from a generation's number.

use vstd::prelude::*;
use crate::text::{decimal, decimal_string, lemma_decimal_injective, lemma_framed_numerals};

verus! {

/// The crate name under which generation `generation` is compiled.
pub open spec fn spec_crate_name(generation: nat) -> Seq<char> {
    "rusti_tmp_source_"@ + decimal(generation)
}

/// The path of the dynamic library that generation `generation` is compiled to.
pub open spec fn spec_artifact_path(generation: nat) -> Seq<char> {
    "./lib"@ + spec_crate_name(generation) + ".dylib"@
}

/// The lines that bring generation `generation` into scope of its successor.
pub open spec fn spec_import_lines(generation: nat) -> Seq<char> {
    "extern crate "@ + spec_crate_name(generation) + ";\n"@ + "pub use "@ + spec_crate_name(
        generation,
    ) + "::*;\n"@
}

/// The attribute with which every prelude starts.
pub open spec fn spec_prelude_header() -> Seq<char> {
    "#![allow(dead_code, unused_imports, unused_features)]"@
}

/// The generation that the prelude of generation `generation` imports: its
/// immediate predecessor, where there is one.
pub open spec fn spec_imported_generation(generation: nat) -> Option<nat> {
    if generation > 0 {
        Some((generation - 1) as nat)
    } else {
        None
    }
}

/// The prelude of generation `generation`.
pub open spec fn spec_prelude(generation: nat) -> Seq<char> {
    match spec_imported_generation(generation) {
        Some(previous) => spec_prelude_header() + spec_import_lines(previous),
        None => spec_prelude_header(),
    }
}

/// Different generations have different crate names.
pub proof fn lemma_crate_names_distinct(a: nat, b: nat)
    requires
        a != b,
    ensures
        spec_crate_name(a) != spec_crate_name(b),
{
    let prefix = "rusti_tmp_source_"@;
    if spec_crate_name(a) == spec_crate_name(b) {
        assert(spec_crate_name(a).subrange(
            prefix.len() as int,
            spec_crate_name(a).len() as int,
        ) =~= decimal(a));
        assert(spec_crate_name(b).subrange(
            prefix.len() as int,
            spec_crate_name(b).len() as int,
        ) =~= decimal(b));
        lemma_decimal_injective(a, b);
    }
}

/// Different generations are compiled to different paths.
pub proof fn lemma_artifact_paths_distinct(a: nat, b: nat)
    requires
        a != b,
    ensures
        spec_artifact_path(a) != spec_artifact_path(b),
{
    let head = "./lib"@ + "rusti_tmp_source_"@;
    let tail = ".dylib"@;
    reveal_strlit(".dylib");
    assert(spec_artifact_path(a) =~= head + decimal(a) + tail);
    assert(spec_artifact_path(b) =~= head + decimal(b) + tail);
    if spec_artifact_path(a) == spec_artifact_path(b) {
        lemma_framed_numerals(head, a, tail, b, tail);
    }
}

/// Different generations are brought into scope by different lines.
pub proof fn lemma_import_lines_distinct(a: nat, b: nat)
    requires
        a != b,
    ensures
        spec_import_lines(a) != spec_import_lines(b),
{
    let head = "extern crate "@ + "rusti_tmp_source_"@;
    let tail_a = ";\n"@ + "pub use "@ + spec_crate_name(a) + "::*;\n"@;
    let tail_b = ";\n"@ + "pub use "@ + spec_crate_name(b) + "::*;\n"@;
    reveal_strlit(";\n");
    assert(spec_import_lines(a) =~= head + decimal(a) + tail_a);
    assert(spec_import_lines(b) =~= head + decimal(b) + tail_b);
    if spec_import_lines(a) == spec_import_lines(b) {
        lemma_framed_numerals(head, a, tail_a, b, tail_b);
    }
}

/// The prelude of a generation past the first consists of the header, a
/// declaration of its immediate predecessor's crate, and a re-export of all
/// that this crate offers. It names no other generation: the crate name of
/// any other generation differs from the one that stands in it, and so do
/// the lines that would bring another generation into scope.
pub proof fn lemma_prelude_names_predecessor_only(generation: nat, other: nat)
    requires
        generation > 0,
    ensures
        spec_prelude(generation) == spec_prelude_header() + ("extern crate "@ + spec_crate_name(
            (generation - 1) as nat,
        ) + ";\n"@ + "pub use "@ + spec_crate_name((generation - 1) as nat) + "::*;\n"@),
        other != generation - 1 ==> spec_crate_name(other) != spec_crate_name(
            (generation - 1) as nat,
        ),
        other != generation - 1 ==> spec_prelude(generation) != spec_prelude_header()
            + spec_import_lines(other),
{
    if other != generation - 1 {
        let previous = (generation - 1) as nat;
        lemma_crate_names_distinct(other, previous);
        lemma_import_lines_distinct(other, previous);
        let header = spec_prelude_header();
        assert((header + spec_import_lines(other)).subrange(
            header.len() as int,
            (header + spec_import_lines(other)).len() as int,
        ) =~= spec_import_lines(other));
        assert((header + spec_import_lines(previous)).subrange(
            header.len() as int,
            (header + spec_import_lines(previous)).len() as int,
        ) =~= spec_import_lines(previous));
    }
}

/// The first generation's prelude is the header alone.
pub proof fn lemma_first_prelude_imports_nothing()
    ensures
        spec_prelude(0) == spec_prelude_header(),
{
}

/// Computes the crate name of a generation.
pub fn crate_name(generation: u64) -> (name: String)
    ensures
        name@ == spec_crate_name(generation as nat),
{
    let mut name = String::from_str("rusti_tmp_source_");
    let digits = decimal_string(generation);
    name.append(digits.as_str());
    name
}

/// Computes the artifact path of a generation.
pub fn artifact_path(generation: u64) -> (path: String)
    ensures
        path@ == spec_artifact_path(generation as nat),
{
    let mut path = String::from_str("./lib");
    let name = crate_name(generation);
    path.append(name.as_str());
    path.append(".dylib");
    path
}

/// Computes the prelude of a generation.
pub fn prelude_text(generation: u64) -> (prelude: String)
    ensures
        prelude@ == spec_prelude(generation as nat),
{
    let mut prelude = String::from_str("#![allow(dead_code, unused_imports, unused_features)]");
    if generation > 0 {
        let name = crate_name(generation - 1);
        prelude.append("extern crate ");
        prelude.append(name.as_str());
        prelude.append(";\n");
        prelude.append("pub use ");
        prelude.append(name.as_str());
        prelude.append("::*;\n");
    }
    prelude
}

/// One accepted generation.
#[derive(Debug, PartialEq, Eq)]
pub struct ArtifactRecord {
    /// Position in the chain.
    pub generation: u64,
    /// Where the compiled library lies.
    pub artifact_path: String,
    /// The entry point that was called in it.
    pub exported_symbol: String,
}

/// The mathematical content of an [`ArtifactRecord`].
pub ghost struct ArtifactRecordView {
    pub generation: nat,
    pub artifact_path: Seq<char>,
    pub exported_symbol: Seq<char>,
}

impl View for ArtifactRecord {
    type V = ArtifactRecordView;

    open spec fn view(&self) -> ArtifactRecordView {
        ArtifactRecordView {
            generation: self.generation as nat,
            artifact_path: self.artifact_path@,
            exported_symbol: self.exported_symbol@,
        }
    }
}

/// Every record stands at the position that its generation number names.
pub open spec fn generations_in_order(chain: Seq<ArtifactRecordView>) -> bool {
    forall|i: int| 0 <= i < chain.len() ==> (#[trigger] chain[i]).generation == i
}

/// The dependencies that a chain offers to its next generation: each record's
/// generation with its artifact path, oldest first.
pub open spec fn spec_dependencies(chain: Seq<ArtifactRecordView>) -> Seq<(nat, Seq<char>)> {
    Seq::new(chain.len(), |i: int| (chain[i].generation, chain[i].artifact_path))
}

/// The view of a dependency list.
pub open spec fn dependencies_view(deps: Seq<(u64, String)>) -> Seq<(nat, Seq<char>)> {
    Seq::new(deps.len(), |i: int| (deps[i].0 as nat, deps[i].1@))
}

/// The chain after `artifact_path` with entry point `exported_symbol` has
/// been accepted as its next generation.
pub open spec fn spec_append(
    chain: Seq<ArtifactRecordView>,
    artifact_path: Seq<char>,
    exported_symbol: Seq<char>,
) -> Seq<ArtifactRecordView> {
    chain.push(
        ArtifactRecordView { generation: chain.len(), artifact_path, exported_symbol },
    )
}

/// The ordered, append-only list of accepted generations.
#[derive(Debug)]
pub struct ArtifactChain {
    records: Vec<ArtifactRecord>,
}

impl View for ArtifactChain {
    type V = Seq<ArtifactRecordView>;

    closed spec fn view(&self) -> Seq<ArtifactRecordView> {
        Seq::new(self.records@.len(), |i: int| self.records@[i]@)
    }
}

impl ArtifactChain {
    /// Every chain keeps its records in the order of their generations.
    #[verifier::type_invariant]
    pub open spec fn inv(self) -> bool {
        generations_in_order(self@)
    }

    /// The empty chain.
    pub fn new() -> (chain: ArtifactChain)
        ensures
            chain@ == Seq::<ArtifactRecordView>::empty(),
    {
        let chain = ArtifactChain { records: Vec::new() };
        chain
    }

    /// The number of accepted generations. Every record stands at the
    /// position that its generation number names.
    pub fn len(&self) -> (n: usize)
        ensures
            n == self@.len(),
            generations_in_order(self@),
    {
        proof {
            use_type_invariant(self);
        }
        self.records.len()
    }

    /// The number that the next accepted generation will get.
    pub fn next_generation(&self) -> (generation: u64)
        ensures
            generation == self@.len(),
    {
        self.records.len() as u64
    }

    /// The record of generation `index`.
    pub fn record(&self, index: usize) -> (record: Option<&ArtifactRecord>)
        ensures
            match record {
                Some(r) => index < self@.len() && r@ == self@[index as int],
                None => index >= self@.len(),
            },
    {
        if index < self.records.len() {
            Some(&self.records[index])
        } else {
            None
        }
    }

    /// Each accepted generation with its artifact path, oldest first.
    pub fn current_dependencies(&self) -> (deps: Vec<(u64, String)>)
        ensures
            dependencies_view(deps@) == spec_dependencies(self@),
    {
        let mut deps: Vec<(u64, String)> = Vec::new();
        let mut i: usize = 0;
        while i < self.records.len()
            invariant
                i <= self.records@.len(),
                deps@.len() == i,
                forall|j: int|
                    0 <= j < i ==> (#[trigger] deps@[j]).0 == self.records@[j].generation
                        && deps@[j].1@ == self.records@[j].artifact_path@,
            decreases self.records@.len() - i,
        {
            let record = &self.records[i];
            deps.push((record.generation, record.artifact_path.clone()));
            i += 1;
        }
        deps
    }

    /// Accepts a new generation and returns its number.
    pub fn append(&mut self, artifact_path: String, exported_symbol: String) -> (generation: u64)
        ensures
            final(self)@ == spec_append(old(self)@, artifact_path@, exported_symbol@),
            generation == old(self)@.len(),
            generations_in_order(old(self)@),
            generations_in_order(final(self)@),
    {
        proof {
            use_type_invariant(&*self);
        }
        let generation = self.records.len() as u64;
        let mut records: Vec<ArtifactRecord> = Vec::new();
        core::mem::swap(&mut records, &mut self.records);
        records.push(ArtifactRecord { generation, artifact_path, exported_symbol });
        proof {
            let after = Seq::new(records@.len(), |i: int| records@[i]@);
            assert(after =~= spec_append(old(self)@, artifact_path@, exported_symbol@));
            assert forall|i: int| 0 <= i < after.len() implies (#[trigger] after[i]).generation
                == i by {
                if i < old(self)@.len() {
                }
            }
        }
        self.records = records;
        generation
    }

    /// The prelude for the generation that would be accepted next.
    pub fn prelude_for_next(&self) -> (prelude: String)
        ensures
            prelude@ == spec_prelude(self@.len()),
    {
        prelude_text(self.records.len() as u64)
    }
}

} // verus!
