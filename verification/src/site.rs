//! Site records: one observation of one genomic position on one strand.

use vstd::prelude::*;

verus! {

/// The strand a site's reads came from.
#[derive(Clone, Copy, Debug, PartialEq, Eq, Structural)]
pub enum Strand {
    Forward,
    Reverse,
}

/// Read tallies at a site.
#[derive(Clone, Copy, Debug, PartialEq, Eq, Structural)]
pub struct Counts {
    pub methylated: u64,
    pub unmethylated: u64,
}

/// One site record.
#[derive(Clone, Copy, Debug, PartialEq, Eq, Structural)]
pub struct Site {
    pub position: u64,
    pub strand: Strand,
    pub is_cpg: bool,
    pub counts: Counts,
}

/// Read tallies as natural numbers.
pub struct CountsModel {
    pub methylated: nat,
    pub unmethylated: nat,
}

/// A site record with unbounded position and tallies.
pub struct SiteModel {
    pub position: nat,
    pub strand: Strand,
    pub is_cpg: bool,
    pub counts: CountsModel,
}

impl CountsModel {
    /// The tallies of two sites taken together.
    pub open spec fn combined(self, other: CountsModel) -> CountsModel {
        CountsModel {
            methylated: self.methylated + other.methylated,
            unmethylated: self.unmethylated + other.unmethylated,
        }
    }

    /// Both tallies fit in a `u64`.
    pub open spec fn representable(self) -> bool {
        self.methylated <= u64::MAX && self.unmethylated <= u64::MAX
    }
}

impl View for Counts {
    type V = CountsModel;

    open spec fn view(&self) -> CountsModel {
        CountsModel { methylated: self.methylated as nat, unmethylated: self.unmethylated as nat }
    }
}

impl Counts {
    pub fn new(methylated: u64, unmethylated: u64) -> (counts: Counts)
        ensures
            counts == (Counts { methylated, unmethylated }),
    {
        Counts { methylated, unmethylated }
    }

    /// Whether the combined tallies of `self` and `other` fit in a `Counts`.
    pub fn fits_with(&self, other: &Counts) -> (fits: bool)
        ensures
            fits == self@.combined(other@).representable(),
    {
        self.methylated <= u64::MAX - other.methylated && self.unmethylated <= u64::MAX
            - other.unmethylated
    }

    /// Folds the tallies of `other` into `self`.
    pub fn combine(&mut self, other: &Counts)
        requires
            old(self)@.combined(other@).representable(),
        ensures
            final(self)@ == old(self)@.combined(other@),
    {
        self.methylated = self.methylated + other.methylated;
        self.unmethylated = self.unmethylated + other.unmethylated;
    }
}

impl SiteModel {
    /// `self` after the evidence of `other` has been folded into it: the
    /// position, strand and context class of `self`, the tallies of both.
    pub open spec fn combined(self, other: SiteModel) -> SiteModel {
        SiteModel {
            position: self.position,
            strand: self.strand,
            is_cpg: self.is_cpg,
            counts: self.counts.combined(other.counts),
        }
    }

    /// The record can be held in a `Site`.
    pub open spec fn representable(self) -> bool {
        self.position <= u64::MAX && self.counts.representable()
    }
}

impl View for Site {
    type V = SiteModel;

    open spec fn view(&self) -> SiteModel {
        SiteModel {
            position: self.position as nat,
            strand: self.strand,
            is_cpg: self.is_cpg,
            counts: self.counts@,
        }
    }
}

impl Site {
    pub fn new(position: u64, strand: Strand, is_cpg: bool, counts: Counts) -> (site: Site)
        ensures
            site == (Site { position, strand, is_cpg, counts }),
    {
        Site { position, strand, is_cpg, counts }
    }

    /// Whether the evidence of `other` can be folded into `self` without
    /// leaving the range of the tallies.
    pub fn fits_with(&self, other: &Site) -> (fits: bool)
        ensures
            fits == self@.combined(other@).representable(),
    {
        self.counts.fits_with(&other.counts)
    }

    /// Folds the evidence of `other` into `self`, in place. Position, strand
    /// and context class of `self` stay as they are.
    pub fn combine(&mut self, other: &Site)
        requires
            old(self)@.combined(other@).representable(),
        ensures
            final(self)@ == old(self)@.combined(other@),
    {
        self.counts.combine(&other.counts);
    }
}

/// The symbol a strand is written with: `+` for forward, `-` for reverse.
pub open spec fn strand_symbol(strand: Strand) -> char {
    match strand {
        Strand::Forward => '+',
        Strand::Reverse => '-',
    }
}

/// The strand a symbol stands for, if any.
pub open spec fn symbol_strand(symbol: char) -> Option<Strand> {
    if symbol == '+' {
        Some(Strand::Forward)
    } else if symbol == '-' {
        Some(Strand::Reverse)
    } else {
        None
    }
}

/// Each strand is read back from its own symbol, and a symbol that stands
/// for a strand is the one that strand is written with.
pub proof fn lemma_strand_symbols_round_trip(strand: Strand, symbol: char)
    ensures
        symbol_strand(strand_symbol(strand)) == Some(strand),
        symbol_strand(symbol) == Some(strand) <==> symbol == strand_symbol(strand),
{
}

impl Strand {
    /// Reads a strand symbol. Anything but `+` and `-` is no strand.
    pub fn from_symbol(symbol: char) -> (strand: Option<Strand>)
        ensures
            strand == symbol_strand(symbol),
    {
        if symbol == '+' {
            Some(Strand::Forward)
        } else if symbol == '-' {
            Some(Strand::Reverse)
        } else {
            None
        }
    }

    /// The symbol this strand is written with.
    pub fn symbol(self) -> (symbol: char)
        ensures
            symbol == strand_symbol(self),
    {
        match self {
            Strand::Forward => '+',
            Strand::Reverse => '-',
        }
    }
}

} // verus!
