//! Facts that hold across the whole five-base domain, proved over the spec
//! functions that the executable functions' contracts are stated in.
use vstd::prelude::*;

use crate::base::Nucleobase;
use crate::error::ConversionError;

verus! {

/// Purine and pyrimidine split the bases in two, and so do amine and ketone:
/// each base is exactly one of each pair.
pub proof fn lemma_classes_partition(b: Nucleobase)
    ensures
        b.pyrimidine() == !b.purine(),
        b.ketone() == !b.amine(),
{
}

/// Reading a base's letter code gives the base back.
pub proof fn lemma_code_round_trip(b: Nucleobase)
    ensures
        Nucleobase::from_code(b.code()) == Some(b),
        Nucleobase::char_parsed(b.code()) == Ok::<Nucleobase, ConversionError>(b),
        Nucleobase::text_parsed(seq![b.code()]) == Ok::<Nucleobase, ConversionError>(b),
{
}

/// No two bases share a letter code.
pub proof fn lemma_code_injective(a: Nucleobase, b: Nucleobase)
    requires
        a.code() == b.code(),
    ensures
        a == b,
{
}

/// Reading a letter code ignores its case.
pub proof fn lemma_code_case_insensitive(b: Nucleobase)
    ensures
        Nucleobase::from_code(b.lower_code()) == Nucleobase::from_code(b.code()),
{
}

/// A character names a base exactly when it is one of the ten letter codes,
/// upper or lower case.
pub proof fn lemma_code_recognized(c: char)
    ensures
        Nucleobase::from_code(c) is Some <==> exists|b: Nucleobase|
            c == b.code() || c == b.lower_code(),
{
    if Nucleobase::from_code(c) is Some {
        let b = Nucleobase::from_code(c)->0;
        assert(c == b.code() || c == b.lower_code());
    }
}

/// Pairing does not depend on the order of the two bases.
pub proof fn lemma_complementary_symmetric(a: Nucleobase, b: Nucleobase)
    ensures
        Nucleobase::complementary(a, b) == Nucleobase::complementary(b, a),
{
}

/// The pairs are exactly Adenine with Thymine, Adenine with Uracil, and
/// Cytosine with Guanine, in either order.
pub proof fn lemma_complementary_pairs(a: Nucleobase, b: Nucleobase)
    ensures
        Nucleobase::complementary(a, b) <==> {
            ||| a is Adenine && (b is Thymine || b is Uracil)
            ||| b is Adenine && (a is Thymine || a is Uracil)
            ||| a is Cytosine && b is Guanine
            ||| a is Guanine && b is Cytosine
        },
{
}

/// A base's complement pairs with it.
pub proof fn lemma_complement_pairs(b: Nucleobase)
    ensures
        Nucleobase::complementary(b, b.complement()),
{
}

/// RNA and DNA membership differ only for Thymine (DNA only) and Uracil
/// (RNA only); Adenine, Cytosine and Guanine belong to both.
pub proof fn lemma_rna_dna_membership(b: Nucleobase)
    ensures
        (b.ribonucleotide() != b.deoxyribonucleotide()) <==> (b is Thymine || b is Uracil),
        !(b is Thymine || b is Uracil) ==> b.ribonucleotide() && b.deoxyribonucleotide(),
        b is Thymine ==> !b.ribonucleotide() && b.deoxyribonucleotide(),
        b is Uracil ==> b.ribonucleotide() && !b.deoxyribonucleotide(),
{
}

} // verus!
