use vstd::prelude::*;

verus! {

/// Identifier of a community topic, such as `kukuri:topic:demo`.
#[derive(Clone, Debug, PartialEq, Eq, PartialOrd, Ord, Hash)]
pub struct TopicId(pub String);

/// Identifier of a signed envelope or of the object it carries.
#[derive(Clone, Debug, PartialEq, Eq, PartialOrd, Ord, Hash)]
pub struct EnvelopeId(pub String);

/// Hex encoded x-only public key of an author.
#[derive(Clone, Debug, PartialEq, Eq, PartialOrd, Ord, Hash)]
pub struct Pubkey(pub String);

/// Content hash of a blob.
#[derive(Clone, Debug, PartialEq, Eq, PartialOrd, Ord, Hash)]
pub struct BlobHash(pub String);

/// Identifier of a (private) channel inside a topic.
#[derive(Clone, Debug, PartialEq, Eq, PartialOrd, Ord, Hash)]
pub struct ChannelId(pub String);

impl View for TopicId {
    type V = Seq<char>;

    open spec fn view(&self) -> Seq<char> {
        self.0@
    }
}

impl View for EnvelopeId {
    type V = Seq<char>;

    open spec fn view(&self) -> Seq<char> {
        self.0@
    }
}

impl View for Pubkey {
    type V = Seq<char>;

    open spec fn view(&self) -> Seq<char> {
        self.0@
    }
}

impl View for BlobHash {
    type V = Seq<char>;

    open spec fn view(&self) -> Seq<char> {
        self.0@
    }
}

impl View for ChannelId {
    type V = Seq<char>;

    open spec fn view(&self) -> Seq<char> {
        self.0@
    }
}

impl TopicId {
    pub fn new(value: String) -> (res: TopicId)
        ensures
            res@ == value@,
    {
        TopicId(value)
    }

    pub fn as_str(&self) -> (res: &str)
        ensures
            res@ == self@,
    {
        self.0.as_str()
    }
}

impl EnvelopeId {
    pub fn new(value: String) -> (res: EnvelopeId)
        ensures
            res@ == value@,
    {
        EnvelopeId(value)
    }

    pub fn as_str(&self) -> (res: &str)
        ensures
            res@ == self@,
    {
        self.0.as_str()
    }
}

impl Pubkey {
    pub fn new(value: String) -> (res: Pubkey)
        ensures
            res@ == value@,
    {
        Pubkey(value)
    }

    pub fn as_str(&self) -> (res: &str)
        ensures
            res@ == self@,
    {
        self.0.as_str()
    }
}

impl BlobHash {
    pub fn new(value: String) -> (res: BlobHash)
        ensures
            res@ == value@,
    {
        BlobHash(value)
    }

    pub fn as_str(&self) -> (res: &str)
        ensures
            res@ == self@,
    {
        self.0.as_str()
    }
}

impl ChannelId {
    pub fn new(value: String) -> (res: ChannelId)
        ensures
            res@ == value@,
    {
        ChannelId(value)
    }

    pub fn as_str(&self) -> (res: &str)
        ensures
            res@ == self@,
    {
        self.0.as_str()
    }
}

} // verus!
