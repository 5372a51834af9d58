use vstd::prelude::*;

verus! {

/// One of the five nucleobases found in nucleic acids.
///
/// The variants are ordered Adenine < Cytosine < Guanine < Thymine < Uracil;
/// this order is fixed for sorting and carries no biological meaning.
#[derive(Copy, Clone, Debug, PartialEq, Eq, Structural, PartialOrd, Ord, Hash)]
pub enum Nucleobase {
    Adenine,
    Cytosine,
    Guanine,
    Thymine,
    Uracil,
}

impl Nucleobase {
    /// Adenine and Guanine: the two-ring bases.
    pub open spec fn purine(self) -> bool {
        self is Adenine || self is Guanine
    }

    /// Cytosine, Thymine and Uracil: the one-ring bases.
    pub open spec fn pyrimidine(self) -> bool {
        self is Cytosine || self is Thymine || self is Uracil
    }

    /// Adenine and Cytosine: the bases that carry an amine group.
    pub open spec fn amine(self) -> bool {
        self is Adenine || self is Cytosine
    }

    /// Guanine, Thymine and Uracil: the bases that carry a ketone group.
    pub open spec fn ketone(self) -> bool {
        self is Guanine || self is Thymine || self is Uracil
    }

    /// Every base but Thymine occurs in RNA.
    pub open spec fn ribonucleotide(self) -> bool {
        !(self is Thymine)
    }

    /// Every base but Uracil occurs in DNA.
    pub open spec fn deoxyribonucleotide(self) -> bool {
        !(self is Uracil)
    }

    /// Two bases pair when one is a purine and the other a pyrimidine, and
    /// one carries an amine group and the other a ketone group.
    pub open spec fn complementary(one: Nucleobase, two: Nucleobase) -> bool {
        one.purine() != two.purine() && one.amine() != two.amine()
    }

    /// The base that pairs with this one in a strand: Adenine and Thymine
    /// swap, Cytosine and Guanine swap, and Uracil goes to Adenine.
    pub open spec fn complement(self) -> Nucleobase {
        match self {
            Nucleobase::Adenine => Nucleobase::Thymine,
            Nucleobase::Cytosine => Nucleobase::Guanine,
            Nucleobase::Guanine => Nucleobase::Cytosine,
            Nucleobase::Thymine => Nucleobase::Adenine,
            Nucleobase::Uracil => Nucleobase::Adenine,
        }
    }

    /// Returns whether the base is a purine (Adenine or Guanine).
    pub fn is_purine(&self) -> (r: bool)
        ensures
            r == self.purine(),
    {
        match self {
            Nucleobase::Adenine | Nucleobase::Guanine => true,
            Nucleobase::Cytosine | Nucleobase::Thymine | Nucleobase::Uracil => false,
        }
    }

    /// Returns whether the base is a pyrimidine (Cytosine, Thymine or Uracil).
    pub fn is_pyrimidine(&self) -> (r: bool)
        ensures
            r == self.pyrimidine(),
    {
        match self {
            Nucleobase::Adenine | Nucleobase::Guanine => false,
            Nucleobase::Cytosine | Nucleobase::Thymine | Nucleobase::Uracil => true,
        }
    }

    /// Returns whether the base carries an amine group (Adenine or Cytosine).
    pub fn is_amine(&self) -> (r: bool)
        ensures
            r == self.amine(),
    {
        match self {
            Nucleobase::Adenine | Nucleobase::Cytosine => true,
            Nucleobase::Guanine | Nucleobase::Thymine | Nucleobase::Uracil => false,
        }
    }

    /// Returns whether the base carries a ketone group (Guanine, Thymine or Uracil).
    pub fn is_ketone(&self) -> (r: bool)
        ensures
            r == self.ketone(),
    {
        match self {
            Nucleobase::Adenine | Nucleobase::Cytosine => false,
            Nucleobase::Guanine | Nucleobase::Thymine | Nucleobase::Uracil => true,
        }
    }

    /// Returns whether the base occurs in RNA: all but Thymine.
    pub fn is_ribonucleotide_base(&self) -> (r: bool)
        ensures
            r == self.ribonucleotide(),
    {
        match self {
            Nucleobase::Adenine
            | Nucleobase::Cytosine
            | Nucleobase::Guanine
            | Nucleobase::Uracil => true,
            Nucleobase::Thymine => false,
        }
    }

    /// Same as [`Nucleobase::is_ribonucleotide_base`].
    pub fn is_rna_base(&self) -> (r: bool)
        ensures
            r == self.ribonucleotide(),
    {
        self.is_ribonucleotide_base()
    }

    /// Returns whether the base occurs in DNA: all but Uracil.
    pub fn is_deoxyribonucleotide_base(&self) -> (r: bool)
        ensures
            r == self.deoxyribonucleotide(),
    {
        match self {
            Nucleobase::Adenine
            | Nucleobase::Cytosine
            | Nucleobase::Guanine
            | Nucleobase::Thymine => true,
            Nucleobase::Uracil => false,
        }
    }

    /// Same as [`Nucleobase::is_deoxyribonucleotide_base`].
    pub fn is_dna_base(&self) -> (r: bool)
        ensures
            r == self.deoxyribonucleotide(),
    {
        self.is_deoxyribonucleotide_base()
    }

    /// Returns whether the two bases pair: one purine and one pyrimidine,
    /// one amine and one ketone.
    pub fn are_complementary(one: &Self, two: &Self) -> (r: bool)
        ensures
            r == Nucleobase::complementary(*one, *two),
    {
        (one.is_purine() != two.is_purine()) && (one.is_amine() != two.is_amine())
    }

    /// Returns whether `other` pairs with this base.
    pub fn is_complementary_to(&self, other: &Self) -> (r: bool)
        ensures
            r == Nucleobase::complementary(*self, *other),
    {
        Self::are_complementary(self, other)
    }

    /// The base that pairs with this one in DNA. Uracil, which DNA does not
    /// hold, is sent to Adenine as well.
    pub fn to_deoxyribonucleotide_complement(self) -> (r: Nucleobase)
        ensures
            r == self.complement(),
    {
        match self {
            Nucleobase::Adenine => Nucleobase::Thymine,
            Nucleobase::Cytosine => Nucleobase::Guanine,
            Nucleobase::Guanine => Nucleobase::Cytosine,
            Nucleobase::Thymine => Nucleobase::Adenine,
            Nucleobase::Uracil => Nucleobase::Adenine,
        }
    }

    /// Same as [`Nucleobase::to_deoxyribonucleotide_complement`].
    pub fn to_dna_complement(self) -> (r: Nucleobase)
        ensures
            r == self.complement(),
    {
        self.to_deoxyribonucleotide_complement()
    }

    /// The base that pairs with this one in RNA. It maps exactly as the DNA
    /// complement does: Adenine goes to Thymine, not to Uracil.
    pub fn to_ribonucleotide_complement(self) -> (r: Nucleobase)
        ensures
            r == self.complement(),
    {
        match self {
            Nucleobase::Adenine => Nucleobase::Thymine,
            Nucleobase::Cytosine => Nucleobase::Guanine,
            Nucleobase::Guanine => Nucleobase::Cytosine,
            Nucleobase::Thymine => Nucleobase::Adenine,
            Nucleobase::Uracil => Nucleobase::Adenine,
        }
    }

    /// Same as [`Nucleobase::to_ribonucleotide_complement`].
    pub fn to_rna_complement(self) -> (r: Nucleobase)
        ensures
            r == self.complement(),
    {
        self.to_ribonucleotide_complement()
    }
}

} // verus!
