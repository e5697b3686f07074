use vstd::prelude::*;

verus! {

/// The mathematical image of a metadata record.
pub struct MetadataView {
    pub name: Seq<u8>,
    pub symbol: Seq<u8>,
    pub decimals: u8,
    pub icon: Option<Seq<u8>>,
}

impl MetadataView {
    /// Well-formed metadata: the name and the symbol are non-empty. The
    /// decimals field carries no further constraint; any value of its width
    /// is well-formed.
    pub open spec fn valid(self) -> bool {
        self.name.len() > 0 && self.symbol.len() > 0
    }
}

pub open spec fn icon_view(icon: Option<Vec<u8>>) -> Option<Seq<u8>> {
    match icon {
        Some(v) => Some(v@),
        None => None,
    }
}

/// A token metadata record: the descriptive fields stored beside the
/// ledger. The record is owned by the contract configuration, not by the
/// ledger; the icon is the only field with a dedicated setter, and that
/// setter rewrites the record as a whole, leaving every other field as it
/// was.
pub struct Metadata {
    name: Vec<u8>,
    symbol: Vec<u8>,
    decimals: u8,
    icon: Option<Vec<u8>>,
}

impl View for Metadata {
    type V = MetadataView;

    closed spec fn view(&self) -> MetadataView {
        MetadataView {
            name: self.name@,
            symbol: self.symbol@,
            decimals: self.decimals,
            icon: icon_view(self.icon),
        }
    }
}

impl Metadata {
    pub fn new(name: Vec<u8>, symbol: Vec<u8>, decimals: u8, icon: Option<Vec<u8>>) -> (m:
        Metadata)
        ensures
            (m@ == MetadataView {
                name: name@,
                symbol: symbol@,
                decimals: decimals,
                icon: icon_view(icon),
            }),
    {
        Metadata { name, symbol, decimals, icon }
    }

    /// Whether the record is well-formed.
    pub fn is_valid(&self) -> (r: bool)
        ensures
            r == self@.valid(),
    {
        self.name.len() > 0 && self.symbol.len() > 0
    }

    /// Replaces the icon, leaving name, symbol and decimals untouched.
    pub fn put_icon(&mut self, icon: Vec<u8>)
        ensures
            (final(self)@ == MetadataView { icon: Some(icon@), ..old(self)@ }),
    {
        self.icon = Some(icon);
    }

    pub fn name(&self) -> (r: &Vec<u8>)
        ensures
            r@ == self@.name,
    {
        &self.name
    }

    pub fn symbol(&self) -> (r: &Vec<u8>)
        ensures
            r@ == self@.symbol,
    {
        &self.symbol
    }

    pub fn decimals(&self) -> (r: u8)
        ensures
            r == self@.decimals,
    {
        self.decimals
    }

    pub fn icon(&self) -> (r: &Option<Vec<u8>>)
        ensures
            icon_view(*r) == self@.icon,
    {
        &self.icon
    }
}

} // verus!
