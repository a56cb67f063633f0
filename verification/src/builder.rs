use vstd::prelude::*;

use crate::identity::Identity;

verus! {

/// A build-time failure. Each is terminal for the call that raised it and
/// carries the underlying diagnostic text where there is one.
#[derive(Clone, Debug, PartialEq, Eq)]
pub enum BuildError {
    /// The external toolchain exited non-zero; the payload is its error
    /// stream, verbatim.
    ToolchainFailure(String),
    /// The toolchain succeeded but no usable compiled binary was found.
    NoArtifactProduced,
    /// A binary was found but could not be read; the payload describes why.
    IoFailure(String),
}

/// The output of a successful build: the identity the program will carry
/// on the ledger, the compiled bytecode, and where the binary sits on disk
/// (kept for diagnostics and resubmission).
#[derive(Clone, Debug, PartialEq, Eq)]
pub struct BuildArtifact {
    pub program_id: Identity,
    pub bytecode: Vec<u8>,
    pub program_path: String,
}

impl BuildArtifact {
    /// An artifact is well-formed when it carries actual bytecode; the
    /// build pipeline only ever returns well-formed artifacts.
    pub open spec fn wf(&self) -> bool {
        self.bytecode@.len() > 0
    }
}

/// Judge the external toolchain's exit: success is exit code zero, and a
/// non-zero exit surfaces the error stream verbatim, with no recovery and
/// no partial artifact.
pub fn toolchain_outcome(exit_ok: bool, stderr: String) -> (r: Result<(), BuildError>)
    ensures
        exit_ok <==> r is Ok,
        !exit_ok ==> r == Err::<(), BuildError>(BuildError::ToolchainFailure(stderr)),
{
    if exit_ok {
        Ok(())
    } else {
        Err(BuildError::ToolchainFailure(stderr))
    }
}

/// The fixed extension marker of a compiled binary, on a file name taken
/// as raw bytes: it ends in `.so` (bytes 46, 115, 111).
pub open spec fn has_binary_extension(name: Seq<u8>) -> bool {
    &&& name.len() >= 3
    &&& name[name.len() - 3] == 46
    &&& name[name.len() - 2] == 115
    &&& name[name.len() - 1] == 111
}

/// Whether the file name carries the compiled-binary extension.
pub fn is_binary_name(name: &Vec<u8>) -> (r: bool)
    ensures
        r == has_binary_extension(name@),
{
    let n = name.len();
    n >= 3 && name[n - 3] == 46 && name[n - 2] == 115 && name[n - 1] == 111
}

/// Byte-wise lexicographic order on file names: the empty name comes
/// first, then by the first differing byte, a prefix before its
/// extensions.
pub open spec fn lex_le(a: Seq<u8>, b: Seq<u8>) -> bool
    decreases a.len(),
{
    if a.len() == 0 {
        true
    } else if b.len() == 0 {
        false
    } else if a[0] < b[0] {
        true
    } else if a[0] > b[0] {
        false
    } else {
        lex_le(a.subrange(1, a.len() as int), b.subrange(1, b.len() as int))
    }
}

/// The lexicographic order is total: of any two names, one comes no later
/// than the other.
pub proof fn lemma_lex_le_total(a: Seq<u8>, b: Seq<u8>)
    ensures
        lex_le(a, b) || lex_le(b, a),
    decreases a.len(),
{
    if a.len() > 0 && b.len() > 0 && a[0] == b[0] {
        lemma_lex_le_total(a.subrange(1, a.len() as int), b.subrange(1, b.len() as int));
    }
}

/// The lexicographic order is transitive.
pub proof fn lemma_lex_le_trans(a: Seq<u8>, b: Seq<u8>, c: Seq<u8>)
    requires
        lex_le(a, b),
        lex_le(b, c),
    ensures
        lex_le(a, c),
    decreases a.len(),
{
    if a.len() > 0 && b.len() > 0 && c.len() > 0 && a[0] == b[0] && b[0] == c[0] {
        lemma_lex_le_trans(
            a.subrange(1, a.len() as int),
            b.subrange(1, b.len() as int),
            c.subrange(1, c.len() as int),
        );
    }
}

/// Dropping an equal prefix of both names does not change their order.
proof fn lemma_lex_le_common_prefix(a: Seq<u8>, b: Seq<u8>, i: int)
    requires
        0 <= i <= a.len(),
        i <= b.len(),
        forall|j: int| 0 <= j < i ==> a[j] == b[j],
    ensures
        lex_le(a, b) == lex_le(a.skip(i), b.skip(i)),
    decreases i,
{
    if i == 0 {
        assert(a.skip(0) =~= a);
        assert(b.skip(0) =~= b);
    } else {
        let a1 = a.subrange(1, a.len() as int);
        let b1 = b.subrange(1, b.len() as int);
        lemma_lex_le_common_prefix(a1, b1, i - 1);
        assert(a1.skip(i - 1) =~= a.skip(i));
        assert(b1.skip(i - 1) =~= b.skip(i));
    }
}

/// Byte-wise lexicographic comparison of two file names.
pub fn lex_le_bytes(a: &Vec<u8>, b: &Vec<u8>) -> (r: bool)
    ensures
        r == lex_le(a@, b@),
{
    let mut i: usize = 0;
    while i < a.len() && i < b.len()
        invariant
            0 <= i <= a@.len(),
            i <= b@.len(),
            forall|j: int| 0 <= j < i ==> a@[j] == b@[j],
        decreases a@.len() - i,
    {
        if a[i] < b[i] {
            proof {
                lemma_lex_le_common_prefix(a@, b@, i as int);
            }
            return true;
        }
        if a[i] > b[i] {
            proof {
                lemma_lex_le_common_prefix(a@, b@, i as int);
            }
            return false;
        }
        i = i + 1;
    }
    proof {
        lemma_lex_le_common_prefix(a@, b@, i as int);
    }
    a.len() <= b.len()
}

/// Select which compiled binary a build hands on when the toolchain's
/// output directory holds several: the lexicographically least file name
/// carrying the binary extension. This makes the choice deterministic
/// instead of leaning on filesystem enumeration order. Returns the index
/// of the chosen entry, or `None` when no entry qualifies.
pub fn select_artifact(entries: &Vec<Vec<u8>>) -> (r: Option<usize>)
    ensures
        r is None <==> (forall|i: int|
            0 <= i < entries@.len() ==> !has_binary_extension(entries@[i]@)),
        r matches Some(k) ==> {
            &&& k < entries@.len()
            &&& has_binary_extension(entries@[k as int]@)
            &&& forall|i: int|
                0 <= i < entries@.len() && has_binary_extension(entries@[i]@) ==> lex_le(
                    entries@[k as int]@,
                    entries@[i]@,
                )
        },
{
    let mut best: Option<usize> = None;
    let mut i: usize = 0;
    while i < entries.len()
        invariant
            0 <= i <= entries@.len(),
            best is None ==> (forall|j: int| 0 <= j < i ==> !has_binary_extension(entries@[j]@)),
            best matches Some(k) ==> {
                &&& k < i
                &&& has_binary_extension(entries@[k as int]@)
                &&& forall|j: int|
                    0 <= j < i && has_binary_extension(entries@[j]@) ==> lex_le(
                        entries@[k as int]@,
                        entries@[j]@,
                    )
            },
        decreases entries@.len() - i,
    {
        if is_binary_name(&entries[i]) {
            match best {
                None => {
                    proof {
                        lemma_lex_le_total(entries@[i as int]@, entries@[i as int]@);
                    }
                    best = Some(i);
                },
                Some(k) => {
                    if lex_le_bytes(&entries[i], &entries[k]) {
                        proof {
                            assert forall|j: int|
                                0 <= j < i + 1 && has_binary_extension(
                                    entries@[j]@,
                                ) implies lex_le(entries@[i as int]@, entries@[j]@) by {
                                if j < i {
                                    lemma_lex_le_trans(
                                        entries@[i as int]@,
                                        entries@[k as int]@,
                                        entries@[j]@,
                                    );
                                } else {
                                    lemma_lex_le_total(entries@[i as int]@, entries@[i as int]@);
                                }
                            }
                        }
                        best = Some(i);
                    } else {
                        proof {
                            lemma_lex_le_total(entries@[i as int]@, entries@[k as int]@);
                        }
                    }
                },
            }
        }
        i = i + 1;
    }
    best
}

/// Package a build's outputs: the identity assigned to the program, the
/// bytecode read from the chosen binary, and that binary's path. The
/// bytecode is taken over unchanged. An empty binary yields no artifact:
/// the artifact invariant demands actual bytecode.
pub fn finish_build(program_id: Identity, bytecode: Vec<u8>, program_path: String) -> (r: Result<
    BuildArtifact,
    BuildError,
>)
    ensures
        bytecode@.len() > 0 ==> (r matches Ok(a) && {
            &&& a.wf()
            &&& a.program_id@ == program_id@
            &&& a.bytecode@ == bytecode@
            &&& a.program_path@ == program_path@
        }),
        bytecode@.len() == 0 ==> (r matches Err(e) && e is NoArtifactProduced),
{
    if bytecode.len() == 0 {
        Err(BuildError::NoArtifactProduced)
    } else {
        Ok(BuildArtifact { program_id, bytecode, program_path })
    }
}

} // verus!
