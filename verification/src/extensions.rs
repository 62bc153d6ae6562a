//! Extensions of leaf nodes, key packages and group contexts, and the kinds
//! of extension and proposal.

use vstd::prelude::*;
use crate::bytes::bytes_equal;
use crate::bytes::copy_bytes;
use crate::codec::append_u16;
use crate::codec::append_vector;
use crate::codec::u16_encoding;
use crate::codec::vector_encoding;
use crate::codec::CodecError;
use crate::codec::MAX_VECTOR_LENGTH;
use crate::credentials::CredentialType;

verus! {

/// The kinds of extension.
#[derive(Clone, Copy, Debug, PartialEq, Eq, Structural)]
pub enum ExtensionType {
    /// An identifier that the application gives a member.
    ApplicationId,
    /// The ratchet tree of the group.
    RatchetTree,
    /// What the members of a group have to support.
    RequiredCapabilities,
    /// The public key for joining a group from outside.
    ExternalPub,
    /// Who may send proposals from outside the group.
    ExternalSenders,
    /// Another kind, by its wire value.
    Unknown(u16),
}

impl ExtensionType {
    /// The value that stands for the kind on the wire.
    pub open spec fn spec_value(self) -> u16 {
        match self {
            ExtensionType::ApplicationId => 1,
            ExtensionType::RatchetTree => 2,
            ExtensionType::RequiredCapabilities => 3,
            ExtensionType::ExternalPub => 4,
            ExtensionType::ExternalSenders => 5,
            ExtensionType::Unknown(v) => v,
        }
    }

    /// The value that stands for the kind on the wire.
    pub fn value(&self) -> (v: u16)
        ensures
            v == self.spec_value(),
    {
        match self {
            ExtensionType::ApplicationId => 1,
            ExtensionType::RatchetTree => 2,
            ExtensionType::RequiredCapabilities => 3,
            ExtensionType::ExternalPub => 4,
            ExtensionType::ExternalSenders => 5,
            ExtensionType::Unknown(v) => *v,
        }
    }

    /// The kind that a wire value stands for.
    pub fn from_value(v: u16) -> (t: Self)
        ensures
            t.spec_value() == v,
            t is Unknown <==> !(1 <= v <= 5),
    {
        match v {
            1 => ExtensionType::ApplicationId,
            2 => ExtensionType::RatchetTree,
            3 => ExtensionType::RequiredCapabilities,
            4 => ExtensionType::ExternalPub,
            5 => ExtensionType::ExternalSenders,
            other => ExtensionType::Unknown(other),
        }
    }
}

/// The kinds of proposal.
#[derive(Clone, Copy, Debug, PartialEq, Eq, Structural)]
pub enum ProposalType {
    Add,
    Update,
    Remove,
    Presharedkey,
    Reinit,
    ExternalInit,
    GroupContextExtensions,
    AppAck,
    /// Another kind, by its wire value.
    Unknown(u16),
}

impl ProposalType {
    /// The value that stands for the kind on the wire.
    pub open spec fn spec_value(self) -> u16 {
        match self {
            ProposalType::Add => 1,
            ProposalType::Update => 2,
            ProposalType::Remove => 3,
            ProposalType::Presharedkey => 4,
            ProposalType::Reinit => 5,
            ProposalType::ExternalInit => 6,
            ProposalType::GroupContextExtensions => 7,
            ProposalType::AppAck => 8,
            ProposalType::Unknown(v) => v,
        }
    }

    /// The value that stands for the kind on the wire.
    pub fn value(&self) -> (v: u16)
        ensures
            v == self.spec_value(),
    {
        match self {
            ProposalType::Add => 1,
            ProposalType::Update => 2,
            ProposalType::Remove => 3,
            ProposalType::Presharedkey => 4,
            ProposalType::Reinit => 5,
            ProposalType::ExternalInit => 6,
            ProposalType::GroupContextExtensions => 7,
            ProposalType::AppAck => 8,
            ProposalType::Unknown(v) => *v,
        }
    }
}

/// Whether a list of kinds of extension holds a kind.
pub fn contains_extension_type(list: &[ExtensionType], extension_type: ExtensionType) -> (b: bool)
    ensures
        b == list@.contains(extension_type),
{
    let n: usize = list.len();
    let mut i: usize = 0;
    while i < n
        invariant
            n == list@.len(),
            i <= n,
            forall|j: int| 0 <= j < i ==> list@[j] != extension_type,
        decreases n - i,
    {
        if list[i] == extension_type {
            return true;
        }
        i = i + 1;
    }
    false
}

/// Whether a list of kinds of proposal holds a kind.
pub fn contains_proposal_type(list: &[ProposalType], proposal_type: ProposalType) -> (b: bool)
    ensures
        b == list@.contains(proposal_type),
{
    let n: usize = list.len();
    let mut i: usize = 0;
    while i < n
        invariant
            n == list@.len(),
            i <= n,
            forall|j: int| 0 <= j < i ==> list@[j] != proposal_type,
        decreases n - i,
    {
        if list[i] == proposal_type {
            return true;
        }
        i = i + 1;
    }
    false
}

/// Whether a list of kinds of credential holds a kind.
pub fn contains_credential_type(list: &[CredentialType], credential_type: CredentialType) -> (b: bool)
    ensures
        b == list@.contains(credential_type),
{
    let n: usize = list.len();
    let mut i: usize = 0;
    while i < n
        invariant
            n == list@.len(),
            i <= n,
            forall|j: int| 0 <= j < i ==> list@[j] != credential_type,
        decreases n - i,
    {
        if list[i] == credential_type {
            return true;
        }
        i = i + 1;
    }
    false
}

/// Whether two lists of kinds of extension are the same.
pub fn extension_types_equal(a: &[ExtensionType], b: &[ExtensionType]) -> (r: bool)
    ensures
        r == (a@ == b@),
{
    if a.len() != b.len() {
        return false;
    }
    let n: usize = a.len();
    let mut i: usize = 0;
    while i < n
        invariant
            n == a@.len(),
            n == b@.len(),
            i <= n,
            forall|j: int| 0 <= j < i ==> a@[j] == b@[j],
        decreases n - i,
    {
        if !(a[i] == b[i]) {
            return false;
        }
        i = i + 1;
    }
    assert(a@ =~= b@);
    true
}

/// Whether two lists of kinds of proposal are the same.
pub fn proposal_types_equal(a: &[ProposalType], b: &[ProposalType]) -> (r: bool)
    ensures
        r == (a@ == b@),
{
    if a.len() != b.len() {
        return false;
    }
    let n: usize = a.len();
    let mut i: usize = 0;
    while i < n
        invariant
            n == a@.len(),
            n == b@.len(),
            i <= n,
            forall|j: int| 0 <= j < i ==> a@[j] == b@[j],
        decreases n - i,
    {
        if !(a[i] == b[i]) {
            return false;
        }
        i = i + 1;
    }
    assert(a@ =~= b@);
    true
}

/// Whether two lists of kinds of credential are the same.
pub fn credential_types_equal(a: &[CredentialType], b: &[CredentialType]) -> (r: bool)
    ensures
        r == (a@ == b@),
{
    if a.len() != b.len() {
        return false;
    }
    let n: usize = a.len();
    let mut i: usize = 0;
    while i < n
        invariant
            n == a@.len(),
            n == b@.len(),
            i <= n,
            forall|j: int| 0 <= j < i ==> a@[j] == b@[j],
        decreases n - i,
    {
        if !(a[i] == b[i]) {
            return false;
        }
        i = i + 1;
    }
    assert(a@ =~= b@);
    true
}

/// The wire values of kinds of extension.
pub open spec fn extension_type_values(list: Seq<ExtensionType>) -> Seq<u16> {
    Seq::new(list.len(), |i: int| list[i].spec_value())
}

/// The wire values of kinds of proposal.
pub open spec fn proposal_type_values(list: Seq<ProposalType>) -> Seq<u16> {
    Seq::new(list.len(), |i: int| list[i].spec_value())
}

/// The wire values of kinds of credential.
pub open spec fn credential_type_values(list: Seq<CredentialType>) -> Seq<u16> {
    Seq::new(list.len(), |i: int| list[i].spec_value())
}

/// The wire values of kinds of extension.
pub fn values_of_extension_types(list: &[ExtensionType]) -> (values: Vec<u16>)
    ensures
        values@ == extension_type_values(list@),
{
    let mut values: Vec<u16> = Vec::new();
    let n: usize = list.len();
    let mut i: usize = 0;
    while i < n
        invariant
            n == list@.len(),
            i <= n,
            values@ == extension_type_values(list@.take(i as int)),
        decreases n - i,
    {
        values.push(list[i].value());
        i = i + 1;
        assert(values@ =~= extension_type_values(list@.take(i as int)));
    }
    assert(list@.take(n as int) == list@);
    values
}

/// The wire values of kinds of proposal.
pub fn values_of_proposal_types(list: &[ProposalType]) -> (values: Vec<u16>)
    ensures
        values@ == proposal_type_values(list@),
{
    let mut values: Vec<u16> = Vec::new();
    let n: usize = list.len();
    let mut i: usize = 0;
    while i < n
        invariant
            n == list@.len(),
            i <= n,
            values@ == proposal_type_values(list@.take(i as int)),
        decreases n - i,
    {
        values.push(list[i].value());
        i = i + 1;
        assert(values@ =~= proposal_type_values(list@.take(i as int)));
    }
    assert(list@.take(n as int) == list@);
    values
}

/// The wire values of kinds of credential.
pub fn values_of_credential_types(list: &[CredentialType]) -> (values: Vec<u16>)
    ensures
        values@ == credential_type_values(list@),
{
    let mut values: Vec<u16> = Vec::new();
    let n: usize = list.len();
    let mut i: usize = 0;
    while i < n
        invariant
            n == list@.len(),
            i <= n,
            values@ == credential_type_values(list@.take(i as int)),
        decreases n - i,
    {
        values.push(list[i].value());
        i = i + 1;
        assert(values@ =~= credential_type_values(list@.take(i as int)));
    }
    assert(list@.take(n as int) == list@);
    values
}

/// What an extension is: its kind and its content.
pub struct ExtensionView {
    pub extension_type: ExtensionType,
    pub data: Seq<u8>,
}

/// An extension: its kind and its encoded content.
#[derive(Debug, PartialEq, Eq)]
pub struct Extension {
    pub extension_type: ExtensionType,
    pub extension_data: Vec<u8>,
}

impl View for Extension {
    type V = ExtensionView;

    open spec fn view(&self) -> ExtensionView {
        ExtensionView { extension_type: self.extension_type, data: self.extension_data@ }
    }
}

impl Extension {
    /// The extension of a kind with a content.
    pub fn new(extension_type: ExtensionType, extension_data: Vec<u8>) -> (e: Self)
        ensures
            e@ == (ExtensionView { extension_type, data: extension_data@ }),
    {
        Extension { extension_type, extension_data }
    }

    /// The kind of the extension.
    pub fn extension_type(&self) -> (t: ExtensionType)
        ensures
            t == self@.extension_type,
    {
        self.extension_type
    }

    /// A copy of the extension.
    pub fn duplicate(&self) -> (e: Self)
        ensures
            e@ == self@,
    {
        Extension { extension_type: self.extension_type, extension_data: copy_bytes(self.extension_data.as_slice()) }
    }
}

/// The encoding of an extension: its kind, then its content as a vector.
pub open spec fn extension_encoding(extension: ExtensionView) -> Seq<u8> {
    u16_encoding(extension.extension_type.spec_value()) + vector_encoding(extension.data)
}

/// The encodings of extensions, one after the other.
pub open spec fn extensions_content(extensions: Seq<ExtensionView>) -> Seq<u8>
    decreases extensions.len(),
{
    if extensions.len() == 0 {
        Seq::empty()
    } else {
        extensions_content(extensions.drop_last()) + extension_encoding(extensions.last())
    }
}

/// The encoding of a list of extensions: a vector of their encodings.
pub open spec fn extensions_encoding(extensions: Seq<ExtensionView>) -> Seq<u8> {
    vector_encoding(extensions_content(extensions))
}

/// Whether a list of extensions can be encoded: no content is too long, and
/// neither are the encodings together.
pub open spec fn extensions_encodable(extensions: Seq<ExtensionView>) -> bool {
    &&& forall|i: int| 0 <= i < extensions.len() ==> (#[trigger] extensions[i]).data.len() <= MAX_VECTOR_LENGTH
    &&& extensions_content(extensions).len() <= MAX_VECTOR_LENGTH
}

/// What a list of extensions stands for.
pub open spec fn extension_views(extensions: Seq<Extension>) -> Seq<ExtensionView> {
    Seq::new(extensions.len(), |i: int| extensions[i]@)
}

/// Failures on lists of extensions.
#[derive(Clone, Copy, Debug, PartialEq, Eq, Structural)]
pub enum InvalidExtensionError {
    /// The list holds two extensions of one kind.
    Duplicate,
}

/// A list of extensions, with no two of one kind.
#[derive(Debug, PartialEq, Eq)]
pub struct Extensions {
    unique: Vec<Extension>,
}

impl View for Extensions {
    type V = Seq<ExtensionView>;

    closed spec fn view(&self) -> Seq<ExtensionView> {
        extension_views(self.unique@)
    }
}

/// Whether no two extensions of a list are of one kind.
pub open spec fn no_duplicate_types(extensions: Seq<ExtensionView>) -> bool {
    forall|i: int, j: int| 0 <= i < j < extensions.len() ==> (#[trigger] extensions[i]).extension_type != (#[trigger] extensions[j]).extension_type
}

/// Whether a list of extensions holds one of a kind.
pub open spec fn has_extension_type(extensions: Seq<ExtensionView>, extension_type: ExtensionType) -> bool {
    exists|i: int| 0 <= i < extensions.len() && (#[trigger] extensions[i]).extension_type == extension_type
}

impl Extensions {
    /// No two extensions are of one kind.
    pub open spec fn wf(&self) -> bool {
        no_duplicate_types(self@)
    }

    /// The empty list.
    pub fn empty() -> (e: Self)
        ensures
            e.wf(),
            e@ == Seq::<ExtensionView>::empty(),
    {
        let e = Extensions { unique: Vec::new() };
        assert(e@ =~= Seq::<ExtensionView>::empty());
        e
    }

    /// The list of one extension.
    pub fn single(extension: Extension) -> (e: Self)
        ensures
            e.wf(),
            e@ == seq![extension@],
    {
        let mut unique: Vec<Extension> = Vec::new();
        unique.push(extension);
        let e = Extensions { unique };
        assert(e@ =~= seq![extension@]);
        e
    }

    /// The list of the extensions given, which fails with `Duplicate` where
    /// two of them are of one kind.
    pub fn from_vec(extensions: Vec<Extension>) -> (r: Result<Self, InvalidExtensionError>)
        ensures
            no_duplicate_types(extension_views(extensions@)) ==> r is Ok && r.unwrap().wf() && r.unwrap()@ == extension_views(extensions@),
            !no_duplicate_types(extension_views(extensions@)) ==> r == Err::<Self, InvalidExtensionError>(InvalidExtensionError::Duplicate),
    {
        let n: usize = extensions.len();
        let ghost views = extension_views(extensions@);
        let mut j: usize = 0;
        while j < n
            invariant
                n == extensions@.len(),
                views == extension_views(extensions@),
                j <= n,
                forall|a: int, b: int| 0 <= a < b < j ==> (#[trigger] views[a]).extension_type != (#[trigger] views[b]).extension_type,
            decreases n - j,
        {
            let mut i: usize = 0;
            while i < j
                invariant
                    n == extensions@.len(),
                    views == extension_views(extensions@),
                    i <= j < n,
                    forall|a: int| 0 <= a < i ==> (#[trigger] views[a]).extension_type != views[j as int].extension_type,
                decreases j - i,
            {
                if extensions[i].extension_type == extensions[j].extension_type {
                    assert(views[i as int].extension_type == views[j as int].extension_type);
                    return Err(InvalidExtensionError::Duplicate);
                }
                i = i + 1;
            }
            j = j + 1;
        }
        Ok(Extensions { unique: extensions })
    }

    /// Whether the list holds an extension of the kind given.
    pub fn contains(&self, extension_type: ExtensionType) -> (b: bool)
        ensures
            b == has_extension_type(self@, extension_type),
    {
        let n: usize = self.unique.len();
        let mut i: usize = 0;
        while i < n
            invariant
                n == self.unique@.len(),
                i <= n,
                forall|j: int| 0 <= j < i ==> (#[trigger] self@[j]).extension_type != extension_type,
            decreases n - i,
        {
            if self.unique[i].extension_type == extension_type {
                assert(self@[i as int].extension_type == extension_type);
                return true;
            }
            i = i + 1;
        }
        false
    }

    /// Adds an extension, which fails with `Duplicate`, and leaves the list
    /// as it was, where the list holds one of its kind.
    pub fn add(&mut self, extension: Extension) -> (r: Result<(), InvalidExtensionError>)
        requires
            old(self).wf(),
        ensures
            final(self).wf(),
            has_extension_type(old(self)@, extension@.extension_type) ==> r == Err::<(), InvalidExtensionError>(InvalidExtensionError::Duplicate) && final(self)@ == old(self)@,
            !has_extension_type(old(self)@, extension@.extension_type) ==> r is Ok && final(self)@ == old(self)@.push(extension@),
    {
        if self.contains(extension.extension_type) {
            return Err(InvalidExtensionError::Duplicate);
        }
        let ghost before = self@;
        let ghost added = extension@;
        self.unique.push(extension);
        assert(self@ =~= before.push(added));
        assert forall|i: int, j: int| 0 <= i < j < self@.len() implies (#[trigger] self@[i]).extension_type != (#[trigger] self@[j]).extension_type by {
            if j < before.len() {
                assert(before[i].extension_type != before[j].extension_type);
            } else {
                assert(before[i].extension_type != added.extension_type);
            }
        }
        Ok(())
    }

    /// The extensions.
    pub fn as_slice(&self) -> (list: &[Extension])
        ensures
            extension_views(list@) == self@,
    {
        self.unique.as_slice()
    }

    /// The number of extensions.
    pub fn len(&self) -> (n: usize)
        ensures
            n == self@.len(),
    {
        self.unique.len()
    }

    /// The kind of the extension at a position.
    pub fn extension_type_at(&self, i: usize) -> (t: ExtensionType)
        requires
            i < self@.len(),
        ensures
            t == self@[i as int].extension_type,
    {
        self.unique[i].extension_type
    }

    /// Whether two lists hold the same extensions in the same order.
    pub fn equals(&self, other: &Self) -> (b: bool)
        ensures
            b == (self@ == other@),
    {
        if self.unique.len() != other.unique.len() {
            return false;
        }
        let n: usize = self.unique.len();
        let mut i: usize = 0;
        while i < n
            invariant
                n == self.unique@.len(),
                n == other.unique@.len(),
                n == self@.len(),
                n == other@.len(),
                i <= n,
                forall|j: int| 0 <= j < i ==> self@[j] == other@[j],
            decreases n - i,
        {
            if !(self.unique[i].extension_type == other.unique[i].extension_type) || !bytes_equal(
                self.unique[i].extension_data.as_slice(),
                other.unique[i].extension_data.as_slice(),
            ) {
                assert(self@[i as int] != other@[i as int]);
                return false;
            }
            i = i + 1;
        }
        assert(self@ =~= other@);
        true
    }

    /// A copy of the list.
    pub fn duplicate(&self) -> (e: Self)
        ensures
            e@ == self@,
    {
        let mut unique: Vec<Extension> = Vec::new();
        let n: usize = self.unique.len();
        let mut i: usize = 0;
        while i < n
            invariant
                n == self.unique@.len(),
                i <= n,
                unique@.len() == i,
                n == self@.len(),
                extension_views(unique@) == self@.take(i as int),
            decreases n - i,
        {
            let ghost copied = unique@;
            let copy = self.unique[i].duplicate();
            assert(copy@ == self@[i as int]);
            unique.push(copy);
            i = i + 1;
            assert forall|k: int| 0 <= k < i implies extension_views(unique@)[k] == self@.take(i as int)[k] by {
                if k < i - 1 {
                    assert(extension_views(copied)[k] == self@.take(i - 1)[k]);
                }
            }
            assert(extension_views(unique@) =~= self@.take(i as int));
        }
        assert(self@.take(n as int) == self@);
        Extensions { unique }
    }

    /// Appends the encoding of the list. Fails, and leaves `out` as it was,
    /// where the list cannot be encoded.
    pub fn append_encoding(&self, out: &mut Vec<u8>) -> (r: Result<(), CodecError>)
        ensures
            extensions_encodable(self@) ==> r is Ok && final(out)@ == old(out)@ + extensions_encoding(self@),
            !extensions_encodable(self@) ==> r == Err::<(), CodecError>(CodecError::InvalidVectorLength) && final(out)@ == old(out)@,
    {
        let mut content: Vec<u8> = Vec::new();
        let n: usize = self.unique.len();
        let mut i: usize = 0;
        while i < n
            invariant
                n == self.unique@.len(),
                n == self@.len(),
                i <= n,
                content@ == extensions_content(self@.take(i as int)),
                forall|j: int| 0 <= j < i ==> (#[trigger] self@[j]).data.len() <= MAX_VECTOR_LENGTH,
            decreases n - i,
        {
            append_u16(&mut content, self.unique[i].extension_type.value());
            match append_vector(&mut content, self.unique[i].extension_data.as_slice()) {
                Err(e) => {
                    assert(self@[i as int].data.len() > MAX_VECTOR_LENGTH);
                    return Err(e);
                },
                Ok(()) => {},
            }
            i = i + 1;
            assert(self@.take(i as int).drop_last() == self@.take(i - 1));
            assert(self@.take(i as int).last() == self@[i - 1]);
        }
        assert(self@.take(n as int) == self@);
        append_vector(out, content.as_slice())
    }
}

/// What the members of a group have to support: kinds of extension, of
/// proposal and of credential.
#[derive(Debug, PartialEq, Eq)]
pub struct RequiredCapabilitiesExtension {
    pub extension_types: Vec<ExtensionType>,
    pub proposal_types: Vec<ProposalType>,
    pub credential_types: Vec<CredentialType>,
}

impl RequiredCapabilitiesExtension {
    /// The requirement of the kinds given.
    pub fn new(extension_types: Vec<ExtensionType>, proposal_types: Vec<ProposalType>, credential_types: Vec<CredentialType>) -> (r: Self)
        ensures
            r.extension_types@ == extension_types@,
            r.proposal_types@ == proposal_types@,
            r.credential_types@ == credential_types@,
    {
        RequiredCapabilitiesExtension { extension_types, proposal_types, credential_types }
    }

    /// The kinds of extension that are required.
    pub fn extension_types(&self) -> (list: &[ExtensionType])
        ensures
            list@ == self.extension_types@,
    {
        self.extension_types.as_slice()
    }

    /// The kinds of proposal that are required.
    pub fn proposal_types(&self) -> (list: &[ProposalType])
        ensures
            list@ == self.proposal_types@,
    {
        self.proposal_types.as_slice()
    }

    /// The kinds of credential that are required.
    pub fn credential_types(&self) -> (list: &[CredentialType])
        ensures
            list@ == self.credential_types@,
    {
        self.credential_types.as_slice()
    }
}

} // verus!
