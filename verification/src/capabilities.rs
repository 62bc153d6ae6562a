//! Capabilities: what a member supports.

use vstd::prelude::*;
use vstd::slice::slice_to_vec;
use crate::codec::append_u16_list;
use crate::codec::u16_list_encoding;
use crate::codec::CodecError;
use crate::codec::MAX_VECTOR_LENGTH;
use crate::credentials::CredentialType;
use crate::extensions::credential_type_values;
use crate::extensions::credential_types_equal;
use crate::extensions::extension_types_equal;
use crate::extensions::proposal_types_equal;
use crate::extensions::extension_type_values;
use crate::extensions::proposal_type_values;
use crate::extensions::values_of_credential_types;
use crate::extensions::values_of_extension_types;
use crate::extensions::values_of_proposal_types;
use crate::extensions::ExtensionType;
use crate::extensions::ProposalType;
use crate::types::Ciphersuite;
use crate::types::ProtocolVersion;
use crate::types::VerifiableCiphersuite;

verus! {

/// What a member supports.
#[derive(Debug, PartialEq, Eq)]
pub struct Capabilities {
    pub versions: Vec<ProtocolVersion>,
    pub ciphersuites: Vec<VerifiableCiphersuite>,
    pub extensions: Vec<ExtensionType>,
    pub proposals: Vec<ProposalType>,
    pub credentials: Vec<CredentialType>,
}

/// What capabilities are.
pub struct CapabilitiesView {
    pub versions: Seq<ProtocolVersion>,
    pub ciphersuites: Seq<VerifiableCiphersuite>,
    pub extensions: Seq<ExtensionType>,
    pub proposals: Seq<ProposalType>,
    pub credentials: Seq<CredentialType>,
}

impl View for Capabilities {
    type V = CapabilitiesView;

    open spec fn view(&self) -> CapabilitiesView {
        CapabilitiesView {
            versions: self.versions@,
            ciphersuites: self.ciphersuites@,
            extensions: self.extensions@,
            proposals: self.proposals@,
            credentials: self.credentials@,
        }
    }
}

/// The protocol versions that a member supports unless it says otherwise.
pub open spec fn spec_default_versions() -> Seq<ProtocolVersion> {
    seq![ProtocolVersion::Mls10]
}

/// The ciphersuites that a member supports unless it says otherwise.
pub open spec fn spec_default_ciphersuites() -> Seq<VerifiableCiphersuite> {
    seq![VerifiableCiphersuite(1), VerifiableCiphersuite(2), VerifiableCiphersuite(3)]
}

/// The kinds of extension that every member supports.
pub open spec fn spec_default_extensions() -> Seq<ExtensionType> {
    seq![ExtensionType::ApplicationId]
}

/// The kinds of proposal that every member supports.
pub open spec fn spec_default_proposals() -> Seq<ProposalType> {
    seq![
        ProposalType::Add,
        ProposalType::Update,
        ProposalType::Remove,
        ProposalType::Presharedkey,
        ProposalType::Reinit,
        ProposalType::GroupContextExtensions,
    ]
}

/// The kinds of credential that a member supports unless it says otherwise.
pub open spec fn spec_default_credentials() -> Seq<CredentialType> {
    seq![CredentialType::Basic]
}

/// The protocol versions that a member supports unless it says otherwise.
pub fn default_versions() -> (list: Vec<ProtocolVersion>)
    ensures
        list@ == spec_default_versions(),
{
    let mut list: Vec<ProtocolVersion> = Vec::new();
    list.push(ProtocolVersion::Mls10);
    assert(list@ =~= spec_default_versions());
    list
}

/// The ciphersuites that a member supports unless it says otherwise.
pub fn default_ciphersuites() -> (list: Vec<VerifiableCiphersuite>)
    ensures
        list@ == spec_default_ciphersuites(),
{
    let mut list: Vec<VerifiableCiphersuite> = Vec::new();
    list.push(VerifiableCiphersuite(1));
    list.push(VerifiableCiphersuite(2));
    list.push(VerifiableCiphersuite(3));
    assert(list@ =~= spec_default_ciphersuites());
    list
}

/// The kinds of extension that every member supports.
pub fn default_extensions() -> (list: Vec<ExtensionType>)
    ensures
        list@ == spec_default_extensions(),
{
    let mut list: Vec<ExtensionType> = Vec::new();
    list.push(ExtensionType::ApplicationId);
    assert(list@ =~= spec_default_extensions());
    list
}

/// The kinds of proposal that every member supports.
pub fn default_proposals() -> (list: Vec<ProposalType>)
    ensures
        list@ == spec_default_proposals(),
{
    let mut list: Vec<ProposalType> = Vec::new();
    list.push(ProposalType::Add);
    list.push(ProposalType::Update);
    list.push(ProposalType::Remove);
    list.push(ProposalType::Presharedkey);
    list.push(ProposalType::Reinit);
    list.push(ProposalType::GroupContextExtensions);
    assert(list@ =~= spec_default_proposals());
    list
}

/// The kinds of credential that a member supports unless it says otherwise.
pub fn default_credentials() -> (list: Vec<CredentialType>)
    ensures
        list@ == spec_default_credentials(),
{
    let mut list: Vec<CredentialType> = Vec::new();
    list.push(CredentialType::Basic);
    assert(list@ =~= spec_default_credentials());
    list
}

/// The wire values of protocol versions.
pub open spec fn version_values(list: Seq<ProtocolVersion>) -> Seq<u16> {
    Seq::new(list.len(), |i: int| list[i].spec_value())
}

/// The wire values of ciphersuites.
pub open spec fn ciphersuite_values(list: Seq<VerifiableCiphersuite>) -> Seq<u16> {
    Seq::new(list.len(), |i: int| list[i].0)
}

/// The ciphersuites by their wire values.
pub open spec fn verifiable_ciphersuites(list: Seq<Ciphersuite>) -> Seq<VerifiableCiphersuite> {
    Seq::new(list.len(), |i: int| VerifiableCiphersuite(list[i].spec_value()))
}

/// The encoding of capabilities: five vectors of wire values.
pub open spec fn capabilities_encoding(capabilities: CapabilitiesView) -> Seq<u8> {
    u16_list_encoding(version_values(capabilities.versions)) + u16_list_encoding(ciphersuite_values(capabilities.ciphersuites)) + u16_list_encoding(
        extension_type_values(capabilities.extensions),
    ) + u16_list_encoding(proposal_type_values(capabilities.proposals)) + u16_list_encoding(credential_type_values(capabilities.credentials))
}

/// Whether capabilities can be encoded: none of the lists is too long.
pub open spec fn capabilities_encodable(capabilities: CapabilitiesView) -> bool {
    &&& 2 * capabilities.versions.len() <= MAX_VECTOR_LENGTH
    &&& 2 * capabilities.ciphersuites.len() <= MAX_VECTOR_LENGTH
    &&& 2 * capabilities.extensions.len() <= MAX_VECTOR_LENGTH
    &&& 2 * capabilities.proposals.len() <= MAX_VECTOR_LENGTH
    &&& 2 * capabilities.credentials.len() <= MAX_VECTOR_LENGTH
}

/// Whether a list of protocol versions holds a version.
pub fn contains_version(list: &[ProtocolVersion], version: ProtocolVersion) -> (b: bool)
    ensures
        b == list@.contains(version),
{
    let n: usize = list.len();
    let mut i: usize = 0;
    while i < n
        invariant
            n == list@.len(),
            i <= n,
            forall|j: int| 0 <= j < i ==> list@[j] != version,
        decreases n - i,
    {
        if list[i] == version {
            return true;
        }
        i = i + 1;
    }
    false
}

/// Whether a list of ciphersuites holds a ciphersuite.
pub fn contains_ciphersuite(list: &[VerifiableCiphersuite], ciphersuite: VerifiableCiphersuite) -> (b: bool)
    ensures
        b == list@.contains(ciphersuite),
{
    let n: usize = list.len();
    let mut i: usize = 0;
    while i < n
        invariant
            n == list@.len(),
            i <= n,
            forall|j: int| 0 <= j < i ==> list@[j] != ciphersuite,
        decreases n - i,
    {
        if list[i] == ciphersuite {
            return true;
        }
        i = i + 1;
    }
    false
}

/// Whether two lists of protocol versions are the same.
pub fn versions_equal(a: &[ProtocolVersion], b: &[ProtocolVersion]) -> (r: bool)
    ensures
        r == (a@ == b@),
{
    if a.len() != b.len() {
        return false;
    }
    let n: usize = a.len();
    let mut i: usize = 0;
    while i < n
        invariant
            n == a@.len(),
            n == b@.len(),
            i <= n,
            forall|j: int| 0 <= j < i ==> a@[j] == b@[j],
        decreases n - i,
    {
        if !(a[i] == b[i]) {
            return false;
        }
        i = i + 1;
    }
    assert(a@ =~= b@);
    true
}

/// Whether two lists of ciphersuites are the same.
pub fn ciphersuites_equal(a: &[VerifiableCiphersuite], b: &[VerifiableCiphersuite]) -> (r: bool)
    ensures
        r == (a@ == b@),
{
    if a.len() != b.len() {
        return false;
    }
    let n: usize = a.len();
    let mut i: usize = 0;
    while i < n
        invariant
            n == a@.len(),
            n == b@.len(),
            i <= n,
            forall|j: int| 0 <= j < i ==> a@[j] == b@[j],
        decreases n - i,
    {
        if !(a[i] == b[i]) {
            return false;
        }
        i = i + 1;
    }
    assert(a@ =~= b@);
    true
}

impl Capabilities {
    /// Whether two sets of capabilities list the same in the same order.
    pub fn equals(&self, other: &Self) -> (b: bool)
        ensures
            b == (self@ == other@),
    {
        versions_equal(self.versions.as_slice(), other.versions.as_slice()) && ciphersuites_equal(self.ciphersuites.as_slice(), other.ciphersuites.as_slice())
            && extension_types_equal(self.extensions.as_slice(), other.extensions.as_slice()) && proposal_types_equal(
            self.proposals.as_slice(),
            other.proposals.as_slice(),
        ) && credential_types_equal(self.credentials.as_slice(), other.credentials.as_slice())
    }

    /// The capabilities with the lists given, and with the default list
    /// where none is given.
    pub fn new(
        versions: Option<&[ProtocolVersion]>,
        ciphersuites: Option<&[Ciphersuite]>,
        extensions: Option<&[ExtensionType]>,
        proposals: Option<&[ProposalType]>,
        credentials: Option<&[CredentialType]>,
    ) -> (c: Self)
        ensures
            c@.versions == (match versions {
                Some(list) => list@,
                None => spec_default_versions(),
            }),
            c@.ciphersuites == (match ciphersuites {
                Some(list) => verifiable_ciphersuites(list@),
                None => spec_default_ciphersuites(),
            }),
            c@.extensions == (match extensions {
                Some(list) => list@,
                None => Seq::<ExtensionType>::empty(),
            }),
            c@.proposals == (match proposals {
                Some(list) => list@,
                None => Seq::<ProposalType>::empty(),
            }),
            c@.credentials == (match credentials {
                Some(list) => list@,
                None => spec_default_credentials(),
            }),
    {
        Capabilities {
            versions: match versions {
                Some(list) => slice_to_vec(list),
                None => default_versions(),
            },
            ciphersuites: match ciphersuites {
                Some(list) => {
                    let mut suites: Vec<VerifiableCiphersuite> = Vec::new();
                    let n: usize = list.len();
                    let mut i: usize = 0;
                    while i < n
                        invariant
                            n == list@.len(),
                            i <= n,
                            suites@ == verifiable_ciphersuites(list@.take(i as int)),
                        decreases n - i,
                    {
                        suites.push(VerifiableCiphersuite::from_ciphersuite(list[i]));
                        i = i + 1;
                        assert(suites@ =~= verifiable_ciphersuites(list@.take(i as int)));
                    }
                    assert(list@.take(n as int) == list@);
                    suites
                },
                None => default_ciphersuites(),
            },
            extensions: match extensions {
                Some(list) => slice_to_vec(list),
                None => Vec::new(),
            },
            proposals: match proposals {
                Some(list) => slice_to_vec(list),
                None => Vec::new(),
            },
            credentials: match credentials {
                Some(list) => slice_to_vec(list),
                None => default_credentials(),
            },
        }
    }

    /// The protocol versions supported.
    pub fn versions(&self) -> (list: &[ProtocolVersion])
        ensures
            list@ == self@.versions,
    {
        self.versions.as_slice()
    }

    /// The ciphersuites supported.
    pub fn ciphersuites(&self) -> (list: &[VerifiableCiphersuite])
        ensures
            list@ == self@.ciphersuites,
    {
        self.ciphersuites.as_slice()
    }

    /// The kinds of extension supported besides the default ones.
    pub fn extensions(&self) -> (list: &[ExtensionType])
        ensures
            list@ == self@.extensions,
    {
        self.extensions.as_slice()
    }

    /// The kinds of proposal supported besides the default ones.
    pub fn proposals(&self) -> (list: &[ProposalType])
        ensures
            list@ == self@.proposals,
    {
        self.proposals.as_slice()
    }

    /// The kinds of credential supported.
    pub fn credentials(&self) -> (list: &[CredentialType])
        ensures
            list@ == self@.credentials,
    {
        self.credentials.as_slice()
    }

    /// A copy of the capabilities.
    pub fn duplicate(&self) -> (c: Self)
        ensures
            c@ == self@,
    {
        Capabilities {
            versions: slice_to_vec(self.versions.as_slice()),
            ciphersuites: slice_to_vec(self.ciphersuites.as_slice()),
            extensions: slice_to_vec(self.extensions.as_slice()),
            proposals: slice_to_vec(self.proposals.as_slice()),
            credentials: slice_to_vec(self.credentials.as_slice()),
        }
    }

    /// Appends the encoding of the capabilities. Fails, and leaves `out` as
    /// it was, where a list is too long.
    pub fn append_encoding(&self, out: &mut Vec<u8>) -> (r: Result<(), CodecError>)
        ensures
            capabilities_encodable(self@) ==> r is Ok && final(out)@ == old(out)@ + capabilities_encoding(self@),
            !capabilities_encodable(self@) ==> r == Err::<(), CodecError>(CodecError::InvalidVectorLength) && final(out)@ == old(out)@,
    {
        let limit: usize = MAX_VECTOR_LENGTH / 2;
        if self.versions.len() > limit || self.ciphersuites.len() > limit || self.extensions.len() > limit || self.proposals.len() > limit || self.credentials.len()
            > limit {
            return Err(CodecError::InvalidVectorLength);
        }
        let mut versions: Vec<u16> = Vec::new();
        let mut i: usize = 0;
        while i < self.versions.len()
            invariant
                i <= self.versions@.len(),
                versions@ == version_values(self.versions@.take(i as int)),
            decreases self.versions@.len() - i,
        {
            versions.push(self.versions[i].value());
            i = i + 1;
            assert(versions@ =~= version_values(self.versions@.take(i as int)));
        }
        assert(self.versions@.take(self.versions@.len() as int) == self.versions@);
        let mut ciphersuites: Vec<u16> = Vec::new();
        let mut j: usize = 0;
        while j < self.ciphersuites.len()
            invariant
                j <= self.ciphersuites@.len(),
                ciphersuites@ == ciphersuite_values(self.ciphersuites@.take(j as int)),
            decreases self.ciphersuites@.len() - j,
        {
            ciphersuites.push(self.ciphersuites[j].0);
            j = j + 1;
            assert(ciphersuites@ =~= ciphersuite_values(self.ciphersuites@.take(j as int)));
        }
        assert(self.ciphersuites@.take(self.ciphersuites@.len() as int) == self.ciphersuites@);
        let extensions = values_of_extension_types(self.extensions.as_slice());
        let proposals = values_of_proposal_types(self.proposals.as_slice());
        let credentials = values_of_credential_types(self.credentials.as_slice());
        let r1 = append_u16_list(out, versions.as_slice());
        let r2 = append_u16_list(out, ciphersuites.as_slice());
        let r3 = append_u16_list(out, extensions.as_slice());
        let r4 = append_u16_list(out, proposals.as_slice());
        let r5 = append_u16_list(out, credentials.as_slice());
        assert(r1 is Ok && r2 is Ok && r3 is Ok && r4 is Ok && r5 is Ok);
        assert(out@ == old(out)@ + capabilities_encoding(self@));
        Ok(())
    }
}

impl Default for Capabilities {
    fn default() -> (c: Self)
        ensures
            c@.versions == spec_default_versions(),
            c@.ciphersuites == spec_default_ciphersuites(),
            c@.extensions == Seq::<ExtensionType>::empty(),
            c@.proposals == Seq::<ProposalType>::empty(),
            c@.credentials == spec_default_credentials(),
    {
        Capabilities {
            versions: default_versions(),
            ciphersuites: default_ciphersuites(),
            extensions: Vec::new(),
            proposals: Vec::new(),
            credentials: default_credentials(),
        }
    }
}

} // verus!
