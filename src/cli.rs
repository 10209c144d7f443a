use vstd::prelude::*;

verus! {

/// Options of the `convert` subcommand.
#[derive(Clone, Copy, Debug, PartialEq, Eq)]
pub struct Convert {}

/// Options of the `debug` subcommand.
#[derive(Clone, Copy, Debug, PartialEq, Eq)]
pub struct Debug {}

/// Genome build selected for a run. Selects which locus block of a record
/// survives into the output.
#[derive(Clone, Copy, Debug, PartialEq, Eq, Structural)]
pub enum Genome {
    Hg19,
    Hg38,
}

/// Assembly name carried by a `SequenceLocation` block of the given build.
pub open spec fn assembly_name(g: Genome) -> Seq<char> {
    match g {
        Genome::Hg19 => seq!['G', 'R', 'C', 'h', '3', '7'],
        Genome::Hg38 => seq!['G', 'R', 'C', 'h', '3', '8'],
    }
}

impl Genome {
    /// The build chosen by the two mutually exclusive command line flags;
    /// build 38 unless only the build 19 flag is set.
    pub fn from_flags(hg19: bool, hg38: bool) -> (r: Genome)
        ensures
            r == (if hg19 && !hg38 { Genome::Hg19 } else { Genome::Hg38 }),
    {
        if hg19 && !hg38 {
            Genome::Hg19
        } else {
            Genome::Hg38
        }
    }

    /// The assembly attribute value that selects this build.
    pub fn assembly(&self) -> (r: &'static str)
        ensures
            r@ == assembly_name(*self),
    {
        match self {
            Genome::Hg19 => {
                let s = "GRCh37";
                proof {
                    reveal_strlit("GRCh37");
                }
                assert(s@ =~= assembly_name(Genome::Hg19));
                s
            },
            Genome::Hg38 => {
                let s = "GRCh38";
                proof {
                    reveal_strlit("GRCh38");
                }
                assert(s@ =~= assembly_name(Genome::Hg38));
                s
            },
        }
    }
}

} // verus!
