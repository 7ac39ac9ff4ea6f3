use crate::error::SimError;
use crate::random::RandomSource;
use crate::render::color_of_hash;
use crate::render::Color;
use crate::text::hex_text;
use crate::text::push_hex;
use vstd::prelude::*;
use vstd::string::*;

verus! {

/// Number of bits in a gene.
pub const GENE_BITS: u32 = 32;

/// Start value of the genome hash.
pub const HASH_BASIS: u64 = 0xcbf2_9ce4_8422_2325;

/// Multiplier of the genome hash.
pub const HASH_PRIME: u64 = 0x0000_0100_0000_01b3;

/// `value` with bit number `bit` inverted and every other bit kept.
pub open spec fn flipped(value: u32, bit: u32) -> u32 {
    value ^ (1u32 << bit)
}

/// Byte number `k` of `value`, byte 0 being the lowest.
pub open spec fn gene_byte(value: u32, k: u32) -> u8 {
    ((value >> (8 * k)) & 0xff) as u8
}

/// One step of the genome hash: fold a single byte into `hash`.
pub open spec fn mix_byte(hash: u64, byte: u8) -> u64 {
    (hash ^ (byte as u64)).wrapping_mul(HASH_PRIME)
}

/// Fold the four bytes of a gene into `hash`, lowest byte first.
pub open spec fn mix_gene(hash: u64, gene: Gene) -> u64 {
    mix_byte(
        mix_byte(
            mix_byte(mix_byte(hash, gene_byte(gene.value, 0)), gene_byte(gene.value, 1)),
            gene_byte(gene.value, 2),
        ),
        gene_byte(gene.value, 3),
    )
}

/// The content hash of a gene sequence: the genes folded in order, starting
/// from [`HASH_BASIS`] (the 64-bit FNV-1a scheme over the genes' bytes). It
/// depends on the values and their order and on nothing else.
pub open spec fn genome_hash(genes: Seq<Gene>) -> u64 {
    genes.fold_left(HASH_BASIS, |hash: u64, gene: Gene| mix_gene(hash, gene))
}

/// The display colour that belongs to a gene sequence.
pub open spec fn genome_color(genes: Seq<Gene>) -> Color {
    color_of_hash(genome_hash(genes))
}

/// The text of a gene sequence: the hexadecimal text of each gene, in order,
/// with one space between neighbours.
pub open spec fn genome_text(genes: Seq<Gene>) -> Seq<char>
    decreases genes.len(),
{
    if genes.len() == 0 {
        Seq::empty()
    } else if genes.len() == 1 {
        hex_text(genes[0].value as nat)
    } else {
        genome_text(genes.drop_last()) + seq![' '] + hex_text(genes.last().value as nat)
    }
}

/// `genes` with bit `bit` of the gene at `index` inverted.
pub open spec fn mutated_at(genes: Seq<Gene>, index: int, bit: u32) -> Seq<Gene> {
    genes.update(index, Gene { value: flipped(genes[index].value, bit) })
}

/// `after` is `before` with exactly one bit of exactly one gene inverted.
pub open spec fn is_point_mutation(before: Seq<Gene>, after: Seq<Gene>) -> bool {
    exists|index: int, bit: u32|
        0 <= index < before.len() && bit < GENE_BITS && after == #[trigger] mutated_at(
            before,
            index,
            bit,
        )
}

/// Whether bit number `bit` of `value` is set.
pub open spec fn bit_is_set(value: u32, bit: u32) -> bool {
    (value >> bit) & 1 == 1
}

/// Flipping bit `bit` inverts that bit and leaves each of the other 31 bits
/// as it was.
pub proof fn lemma_flip_inverts_one_bit(value: u32, bit: u32, other: u32)
    requires
        bit < GENE_BITS,
        other < GENE_BITS,
    ensures
        other == bit ==> bit_is_set(flipped(value, bit), other) != bit_is_set(value, other),
        other != bit ==> bit_is_set(flipped(value, bit), other) == bit_is_set(value, other),
{
    assert(other == bit ==> ((value ^ (1u32 << bit)) >> other) & 1 != (value >> other) & 1)
        by (bit_vector)
        requires
            bit < 32,
            other < 32,
    ;
    assert(other != bit ==> ((value ^ (1u32 << bit)) >> other) & 1 == (value >> other) & 1)
        by (bit_vector)
        requires
            bit < 32,
            other < 32,
    ;
    assert((value >> other) & 1 == 0 || (value >> other) & 1 == 1) by (bit_vector);
    let after = value ^ (1u32 << bit);
    assert((after >> other) & 1 == 0 || (after >> other) & 1 == 1) by (bit_vector);
}

/// Flipping the same bit twice gives the value back.
pub proof fn lemma_flip_twice(value: u32, bit: u32)
    requires
        bit < GENE_BITS,
    ensures
        flipped(flipped(value, bit), bit) == value,
{
    assert((value ^ (1u32 << bit)) ^ (1u32 << bit) == value) by (bit_vector);
}

/// A point mutation keeps the number of genes and changes one gene only.
pub proof fn lemma_point_mutation_shape(before: Seq<Gene>, after: Seq<Gene>)
    requires
        is_point_mutation(before, after),
    ensures
        after.len() == before.len(),
        exists|index: int|
            0 <= index < before.len() && after[index] != before[index] && forall|other: int|
                0 <= other < before.len() && other != index ==> after[other] == before[other],
{
    let (index, bit) = choose|index: int, bit: u32|
        0 <= index < before.len() && bit < GENE_BITS && after == #[trigger] mutated_at(
            before,
            index,
            bit,
        );
    let value = before[index].value;
    assert(value ^ (1u32 << bit) != value) by (bit_vector)
        requires
            bit < 32,
    ;
    assert(after[index] != before[index]);
    assert forall|other: int| 0 <= other < before.len() && other != index implies {
        after[other] == before[other]
    } by {}
}

/// The smallest heritable unit: a 32-bit pattern.
#[derive(Clone, Copy, Debug, PartialEq, Eq, Structural)]
pub struct Gene {
    pub value: u32,
}

impl Gene {
    /// The gene with the given bit pattern.
    pub fn new(value: u32) -> (gene: Gene)
        ensures
            gene.value == value,
    {
        Gene { value }
    }

    /// A gene whose 32 bits are drawn from `rng`.
    pub fn new_random(rng: &mut RandomSource) -> Gene {
        Gene { value: rng.next_u32() }
    }

    /// Inverts bit number `bit`.
    pub fn flip_bit(&mut self, bit: u32)
        requires
            bit < GENE_BITS,
        ensures
            final(self).value == flipped(old(self).value, bit),
    {
        self.value = self.value ^ (1u32 << bit);
    }

    /// Inverts one bit, whose position is drawn from `rng`.
    pub fn mutate(&mut self, rng: &mut RandomSource)
        ensures
            exists|bit: u32| bit < GENE_BITS && final(self).value == #[trigger] flipped(
                old(self).value,
                bit,
            ),
    {
        let bit: u32 = rng.below(GENE_BITS as usize) as u32;
        self.flip_bit(bit);
    }

    /// The bit pattern in hexadecimal, letters in upper case.
    pub fn to_string(&self) -> (text: String)
        ensures
            text@ == hex_text(self.value as nat),
    {
        let mut text = String::new();
        push_hex(&mut text, self.value);
        text
    }

    /// Folds this gene into a running genome hash.
    fn mix_into(&self, hash: u64) -> (mixed: u64)
        ensures
            mixed == mix_gene(hash, *self),
    {
        let v: u32 = self.value;
        assert((v >> 0u32) & 0xff < 256 && (v >> 8u32) & 0xff < 256 && (v >> 16u32) & 0xff < 256
            && (v >> 24u32) & 0xff < 256) by (bit_vector);
        let b0: u8 = ((v >> 0u32) & 0xff) as u8;
        let b1: u8 = ((v >> 8u32) & 0xff) as u8;
        let b2: u8 = ((v >> 16u32) & 0xff) as u8;
        let b3: u8 = ((v >> 24u32) & 0xff) as u8;
        let h0: u64 = (hash ^ (b0 as u64)).wrapping_mul(HASH_PRIME);
        let h1: u64 = (h0 ^ (b1 as u64)).wrapping_mul(HASH_PRIME);
        let h2: u64 = (h1 ^ (b2 as u64)).wrapping_mul(HASH_PRIME);
        (h2 ^ (b3 as u64)).wrapping_mul(HASH_PRIME)
    }
}

/// The ordered genes of one organism. The number of genes is fixed when the
/// genome is built; mutation changes bits, never the length.
#[derive(Clone, Debug, PartialEq, Eq)]
pub struct Genome {
    genes: Vec<Gene>,
}

impl View for Genome {
    type V = Seq<Gene>;

    closed spec fn view(&self) -> Seq<Gene> {
        self.genes@
    }
}

impl Genome {
    /// The genome that holds exactly `genes`, in that order.
    pub fn from_genes(genes: Vec<Gene>) -> (genome: Genome)
        ensures
            genome@ == genes@,
    {
        Genome { genes }
    }

    /// A genome of `size` genes drawn from `rng`. `size` may be zero.
    pub fn new_random_with(size: usize, rng: &mut RandomSource) -> (genome: Genome)
        ensures
            genome@.len() == size,
    {
        let mut genes: Vec<Gene> = Vec::new();
        let mut i: usize = 0;
        while i < size
            invariant
                i <= size,
                genes@.len() == i,
            decreases size - i,
        {
            genes.push(Gene::new_random(rng));
            i = i + 1;
        }
        Genome { genes }
    }

    /// A genome of `size` genes drawn from a source seeded by the operating
    /// system.
    pub fn new_random(size: usize) -> (genome: Genome)
        ensures
            genome@.len() == size,
    {
        let mut rng = RandomSource::from_entropy();
        Genome::new_random_with(size, &mut rng)
    }

    /// Number of genes.
    pub fn len(&self) -> (n: usize)
        ensures
            n == self@.len(),
    {
        self.genes.len()
    }

    /// The genes in order.
    pub fn genes(&self) -> (genes: &Vec<Gene>)
        ensures
            genes@ == self@,
    {
        &self.genes
    }

    /// Inverts bit `bit` of the gene at `index`; every other gene is kept.
    pub fn mutate_gene(&mut self, index: usize, bit: u32)
        requires
            index < old(self)@.len(),
            bit < GENE_BITS,
        ensures
            final(self)@ == mutated_at(old(self)@, index as int, bit),
    {
        let mut gene: Gene = self.genes[index];
        gene.flip_bit(bit);
        self.genes.set(index, gene);
    }

    /// Inverts one bit of one gene, both chosen by `rng`. A genome without
    /// genes cannot mutate: it is left as it is and the call is rejected.
    pub fn mutate_with(&mut self, rng: &mut RandomSource) -> (result: Result<(), SimError>)
        ensures
            old(self)@.len() == 0 ==> (result matches Err(SimError::EmptyGenome)),
            old(self)@.len() == 0 ==> final(self)@ == old(self)@,
            old(self)@.len() > 0 ==> result is Ok,
            old(self)@.len() > 0 ==> is_point_mutation(old(self)@, final(self)@),
    {
        let size: usize = self.genes.len();
        if size == 0 {
            return Err(SimError::EmptyGenome);
        }
        let index: usize = rng.below(size);
        let bit: u32 = rng.below(GENE_BITS as usize) as u32;
        self.mutate_gene(index, bit);
        Ok(())
    }

    /// Like [`Genome::mutate_with`], with a source seeded by the operating
    /// system.
    pub fn mutate(&mut self) -> (result: Result<(), SimError>)
        ensures
            old(self)@.len() == 0 ==> (result matches Err(SimError::EmptyGenome)),
            old(self)@.len() == 0 ==> final(self)@ == old(self)@,
            old(self)@.len() > 0 ==> result is Ok,
            old(self)@.len() > 0 ==> is_point_mutation(old(self)@, final(self)@),
    {
        let mut rng = RandomSource::from_entropy();
        self.mutate_with(&mut rng)
    }

    /// The text of every gene, in order, separated by single spaces.
    pub fn to_string(&self) -> (text: String)
        ensures
            text@ == genome_text(self@),
    {
        let mut text = String::new();
        let mut i: usize = 0;
        while i < self.genes.len()
            invariant
                i <= self.genes@.len(),
                text@ == genome_text(self.genes@.take(i as int)),
            decreases self.genes@.len() - i,
        {
            if i > 0 {
                text.append(" ");
            }
            push_hex(&mut text, self.genes[i].value);
            proof {
                reveal_strlit(" ");
                let next = self.genes@.take(i + 1);
                assert(next.drop_last() == self.genes@.take(i as int));
                assert(next.last() == self.genes@[i as int]);
                assert(text@ =~= genome_text(next));
            }
            i = i + 1;
        }
        assert(self.genes@.take(i as int) == self.genes@);
        text
    }

    /// The content hash of the genome.
    pub fn content_hash(&self) -> (hash: u64)
        ensures
            hash == genome_hash(self@),
    {
        let ghost mix = |hash: u64, gene: Gene| mix_gene(hash, gene);
        let mut hash: u64 = HASH_BASIS;
        let mut i: usize = 0;
        while i < self.genes.len()
            invariant
                i <= self.genes@.len(),
                mix == |hash: u64, gene: Gene| mix_gene(hash, gene),
                hash == self.genes@.take(i as int).fold_left(HASH_BASIS, mix),
            decreases self.genes@.len() - i,
        {
            assert(self.genes@.take(i + 1).drop_last() == self.genes@.take(i as int));
            hash = self.genes[i].mix_into(hash);
            i = i + 1;
        }
        assert(self.genes@.take(i as int) == self.genes@);
        hash
    }
}

/// An individual that lives on one tile of the board.
#[derive(Clone, Debug, PartialEq, Eq)]
pub struct Organism {
    pub x: usize,
    pub y: usize,
    pub genome: Genome,
}

impl Organism {
    /// An organism at `(x, y)` with a genome of `genome_size` genes drawn from
    /// `rng`. The coordinates are taken as given: whoever puts the organism on
    /// a board checks them against the board.
    pub fn new_with(x: usize, y: usize, genome_size: usize, rng: &mut RandomSource) -> (organism:
        Organism)
        ensures
            organism.x == x,
            organism.y == y,
            organism.genome@.len() == genome_size,
    {
        Organism { x, y, genome: Genome::new_random_with(genome_size, rng) }
    }

    /// Like [`Organism::new_with`], with a source seeded by the operating
    /// system.
    pub fn new(x: usize, y: usize, genome_size: usize) -> (organism: Organism)
        ensures
            organism.x == x,
            organism.y == y,
            organism.genome@.len() == genome_size,
    {
        let mut rng = RandomSource::from_entropy();
        Organism::new_with(x, y, genome_size, &mut rng)
    }

    /// The display colour of the organism. It is a function of the genome's
    /// content alone.
    pub open spec fn spec_color(&self) -> Color {
        genome_color(self.genome@)
    }

    /// Organisms with the same genes in the same order have the same colour,
    /// wherever they stand.
    pub proof fn lemma_same_genes_same_color(self, other: Organism)
        requires
            self.genome@ == other.genome@,
        ensures
            self.spec_color() == other.spec_color(),
    {
    }

    /// The display colour of the organism.
    pub fn color(&self) -> (color: Color)
        ensures
            color == self.spec_color(),
    {
        Color::from_hash(self.genome.content_hash())
    }

    /// The display colour as the bytes red, green, blue.
    pub fn as_color(&self) -> (bytes: [u8; 3])
        ensures
            bytes@ == seq![self.spec_color().r, self.spec_color().g, self.spec_color().b],
    {
        self.color().to_bytes()
    }
}

} // verus!
