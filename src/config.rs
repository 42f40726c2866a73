use vstd::prelude::*;

use crate::bytes::{bytes_eq, copy_bytes};
use crate::engine::TrustPolicy;
use crate::error::{ErrorKind, VerificationError};

verus! {

/// A named byte string: a file of the configuration directory, or a claim
/// that a target presents.
pub type ClaimView = (Seq<u8>, Seq<u8>);

/// A named piece of trusted material, or a claim that a target presents.
#[derive(Clone, Debug)]
pub struct Claim {
    pub name: Vec<u8>,
    pub value: Vec<u8>,
}

impl View for Claim {
    type V = ClaimView;

    open spec fn view(&self) -> ClaimView {
        (self.name@, self.value@)
    }
}

pub open spec fn claims_view(v: Seq<Claim>) -> Seq<ClaimView> {
    v.map_values(|c: Claim| c@)
}

/// One file of the configuration directory, as read from disk.
#[derive(Clone, Debug)]
pub struct FileEntry {
    pub name: Vec<u8>,
    pub contents: Vec<u8>,
}

impl View for FileEntry {
    type V = ClaimView;

    open spec fn view(&self) -> ClaimView {
        (self.name@, self.contents@)
    }
}

pub open spec fn entries_view(v: Seq<FileEntry>) -> Seq<ClaimView> {
    v.map_values(|e: FileEntry| e@)
}

/// What reading the configuration directory gave.
#[derive(Clone, Debug)]
pub enum DirectoryRead {
    /// The directory does not exist.
    NotFound,
    /// The directory or one of its files may not be read.
    PermissionDenied,
    /// Another I/O fault kept the directory from being read.
    Unreadable,
    /// The regular files of the directory, with their contents.
    Listed(Vec<FileEntry>),
}

/// The name of the required file that locates the target: `target`.
pub open spec fn target_file_name() -> Seq<u8> {
    seq![116u8, 97u8, 114u8, 103u8, 101u8, 116u8]
}

/// No two entries share a name.
pub open spec fn names_unique(s: Seq<ClaimView>) -> bool {
    forall|i: int, j: int|
        0 <= i < s.len() && 0 <= j < s.len() && i != j ==> s[i].0 != s[j].0
}

/// The contents of the last entry named `target`, if there is one.
pub open spec fn target_of(s: Seq<ClaimView>) -> Option<Seq<u8>>
    decreases s.len(),
{
    if s.len() == 0 {
        None
    } else if s.last().0 == target_file_name() {
        Some(s.last().1)
    } else {
        target_of(s.drop_last())
    }
}

/// Every entry but those named `target`, in order: the trusted material.
pub open spec fn claims_of(s: Seq<ClaimView>) -> Seq<ClaimView>
    decreases s.len(),
{
    if s.len() == 0 {
        Seq::empty()
    } else if s.last().0 == target_file_name() {
        claims_of(s.drop_last())
    } else {
        claims_of(s.drop_last()).push(s.last())
    }
}

/// The mathematical content of a configuration bundle.
pub struct BundleModel {
    /// Where the target is found (the contents of the `target` file).
    pub target: Seq<u8>,
    /// The trusted material (expected measurements, identities,
    /// certificates), one named entry per file. Its meaning is the trust
    /// policy's.
    pub expected: Seq<ClaimView>,
}

/// What resolving a directory listing gives. A listing is malformed when two
/// files share a name, when the `target` file is missing or empty, when no
/// other file holds trusted material, or when the policy rejects that
/// material.
pub open spec fn resolve_entries_spec<P: TrustPolicy>(p: P, s: Seq<ClaimView>) -> Result<
    BundleModel,
    ErrorKind,
> {
    if !names_unique(s) {
        Err(ErrorKind::ConfigMalformed)
    } else {
        match target_of(s) {
            None => Err(ErrorKind::ConfigMalformed),
            Some(t) => if t.len() == 0 || claims_of(s).len() == 0 || !p.material_ok(
                claims_of(s),
            ) {
                Err(ErrorKind::ConfigMalformed)
            } else {
                Ok(BundleModel { target: t, expected: claims_of(s) })
            },
        }
    }
}

/// What resolving a read of the configuration directory gives.
pub open spec fn resolve_spec<P: TrustPolicy>(p: P, d: DirectoryRead) -> Result<
    BundleModel,
    ErrorKind,
> {
    match d {
        DirectoryRead::NotFound => Err(ErrorKind::ConfigNotFound),
        DirectoryRead::PermissionDenied => Err(ErrorKind::ConfigPermissionDenied),
        DirectoryRead::Unreadable => Err(ErrorKind::ConfigUnreadable),
        DirectoryRead::Listed(v) => resolve_entries_spec(p, entries_view(v@)),
    }
}

/// A validated, immutable trusted configuration.
#[derive(Clone, Debug)]
pub struct ConfigBundle {
    target: Vec<u8>,
    expected: Vec<Claim>,
}

impl View for ConfigBundle {
    type V = BundleModel;

    closed spec fn view(&self) -> BundleModel {
        BundleModel { target: self.target@, expected: claims_view(self.expected@) }
    }
}

impl ConfigBundle {
    pub open spec fn wf(&self) -> bool {
        self@.target.len() > 0 && self@.expected.len() > 0
    }

    /// Where the target is found.
    pub fn target(&self) -> (r: &Vec<u8>)
        ensures
            r@ == self@.target,
    {
        &self.target
    }

    /// The trusted material.
    pub fn expected(&self) -> (r: &Vec<Claim>)
        ensures
            claims_view(r@) == self@.expected,
    {
        &self.expected
    }
}

fn is_target_name(name: &Vec<u8>) -> (r: bool)
    ensures
        r == (name@ == target_file_name()),
{
    let r = name.len() == 6 && name[0] == 116u8 && name[1] == 97u8 && name[2] == 114u8
        && name[3] == 103u8 && name[4] == 101u8 && name[5] == 116u8;
    if r {
        assert(name@ =~= target_file_name());
    }
    r
}

fn names_distinct(entries: &Vec<FileEntry>) -> (r: bool)
    ensures
        r == names_unique(entries_view(entries@)),
{
    let ghost s = entries_view(entries@);
    let mut i: usize = 0;
    while i < entries.len()
        invariant
            s == entries_view(entries@),
            0 <= i <= entries@.len(),
            forall|a: int, b: int| 0 <= a < i && 0 <= b < i && a != b ==> s[a].0 != s[b].0,
        decreases entries@.len() - i,
    {
        let mut j: usize = 0;
        while j < i
            invariant
                s == entries_view(entries@),
                0 <= j <= i < entries@.len(),
                forall|a: int, b: int| 0 <= a < i && 0 <= b < i && a != b ==> s[a].0 != s[b].0,
                forall|b: int| 0 <= b < j ==> s[b].0 != s[i as int].0,
            decreases i - j,
        {
            if bytes_eq(&entries[j].name, &entries[i].name) {
                assert(s[j as int].0 == s[i as int].0);
                return false;
            }
            j += 1;
        }
        i += 1;
    }
    true
}

proof fn lemma_prefix_step(s: Seq<ClaimView>, i: int)
    requires
        0 <= i < s.len(),
    ensures
        s.subrange(0, i + 1).drop_last() == s.subrange(0, i),
        s.subrange(0, i + 1).last() == s[i],
{
    assert(s.subrange(0, i + 1).drop_last() =~= s.subrange(0, i));
}

/// Resolves a read of the configuration directory into a bundle whose
/// material `policy` accepts.
pub fn resolve<P: TrustPolicy>(policy: &P, dir: &DirectoryRead) -> (r: Result<
    ConfigBundle,
    VerificationError,
>)
    ensures
        match r {
            Ok(b) => resolve_spec(*policy, *dir) == Ok::<BundleModel, ErrorKind>(b@) && b.wf(),
            Err(e) => resolve_spec(*policy, *dir) == Err::<BundleModel, ErrorKind>(e@),
        },
{
    let entries = match dir {
        DirectoryRead::NotFound => {
            return Err(
                VerificationError::new(
                    ErrorKind::ConfigNotFound,
                    "configuration directory does not exist",
                ),
            );
        },
        DirectoryRead::PermissionDenied => {
            return Err(
                VerificationError::new(
                    ErrorKind::ConfigPermissionDenied,
                    "configuration directory may not be read",
                ),
            );
        },
        DirectoryRead::Unreadable => {
            return Err(
                VerificationError::new(
                    ErrorKind::ConfigUnreadable,
                    "configuration directory could not be read",
                ),
            );
        },
        DirectoryRead::Listed(v) => v,
    };
    let ghost s = entries_view(entries@);
    if !names_distinct(entries) {
        return Err(
            VerificationError::new(
                ErrorKind::ConfigMalformed,
                "two configuration files share a name",
            ),
        );
    }
    let mut found = false;
    let mut target: Vec<u8> = Vec::new();
    let mut expected: Vec<Claim> = Vec::new();
    let mut i: usize = 0;
    while i < entries.len()
        invariant
            s == entries_view(entries@),
            0 <= i <= entries@.len(),
            found ==> target_of(s.subrange(0, i as int)) == Some(target@),
            !found ==> target_of(s.subrange(0, i as int)) is None,
            claims_view(expected@) == claims_of(s.subrange(0, i as int)),
        decreases entries@.len() - i,
    {
        proof {
            lemma_prefix_step(s, i as int);
        }
        let e = &entries[i];
        if is_target_name(&e.name) {
            found = true;
            target = copy_bytes(&e.contents);
        } else {
            let c = Claim { name: copy_bytes(&e.name), value: copy_bytes(&e.contents) };
            let ghost prev = expected@;
            expected.push(c);
            assert(claims_view(expected@) =~= claims_view(prev).push(c@));
        }
        i += 1;
    }
    assert(s.subrange(0, s.len() as int) == s);
    if !found {
        return Err(
            VerificationError::new(
                ErrorKind::ConfigMalformed,
                "the required target file is missing",
            ),
        );
    }
    if target.len() == 0 {
        return Err(
            VerificationError::new(ErrorKind::ConfigMalformed, "the target file is empty"),
        );
    }
    if expected.len() == 0 {
        return Err(
            VerificationError::new(
                ErrorKind::ConfigMalformed,
                "the configuration holds no trusted material",
            ),
        );
    }
    if !policy.check_material(&expected) {
        return Err(
            VerificationError::new(
                ErrorKind::ConfigMalformed,
                "the trust policy rejects the configured material",
            ),
        );
    }
    Ok(ConfigBundle { target, expected })
}

} // verus!
