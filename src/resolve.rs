use vstd::prelude::*;

verus! {

/// How many places are searched for a configuration file.
pub const CANDIDATE_COUNT: usize = 5;

/// The directory that a candidate location starts from.
#[derive(Debug, Clone, Copy, PartialEq, Eq, Structural)]
pub enum BaseDir {
    /// The directory the process runs in.
    WorkingDir,
    /// The path of the running executable.
    Executable,
    /// The user's home directory.
    Home,
    /// The platform's directory for configuration files.
    ConfigDir,
}

/// One place where a configuration file may be: a base directory and the
/// path components to push onto it.
#[derive(Debug, Clone)]
pub struct Candidate {
    pub base: BaseDir,
    pub components: Vec<String>,
}

pub open spec fn candidate_base(index: int) -> BaseDir {
    if index == 0 {
        BaseDir::WorkingDir
    } else if index == 1 {
        BaseDir::Executable
    } else if index == 2 {
        BaseDir::Home
    } else {
        BaseDir::ConfigDir
    }
}

pub open spec fn candidate_components(index: int) -> Seq<Seq<char>> {
    if index == 2 {
        seq![".tradu.yml"@]
    } else if index == 4 {
        seq!["tradu"@, "tradu.yml"@]
    } else {
        seq!["tradu.yml"@]
    }
}

pub open spec fn components_view(v: Seq<String>) -> Seq<Seq<char>> {
    v.map_values(|s: String| s@)
}

/// The candidate location of the given rank; rank 0 is searched first and is
/// where a fresh configuration is written when no file is found.
pub fn candidate(index: usize) -> (r: Candidate)
    requires
        index < CANDIDATE_COUNT,
    ensures
        r.base == candidate_base(index as int),
        components_view(r.components@) == candidate_components(index as int),
{
    let base = if index == 0 {
        BaseDir::WorkingDir
    } else if index == 1 {
        BaseDir::Executable
    } else if index == 2 {
        BaseDir::Home
    } else {
        BaseDir::ConfigDir
    };
    let mut components: Vec<String> = Vec::new();
    if index == 2 {
        components.push(String::from_str(".tradu.yml"));
    } else if index == 4 {
        components.push(String::from_str("tradu"));
        components.push(String::from_str("tradu.yml"));
    } else {
        components.push(String::from_str("tradu.yml"));
    }
    proof {
        assert(components_view(components@) =~= candidate_components(index as int));
    }
    Candidate { base, components }
}

/// Where the search for a configuration file stands.
#[derive(Debug, Clone, Copy, PartialEq, Eq, Structural)]
pub enum Resolution {
    /// The candidate of this rank is to be checked next.
    Probe(usize),
    /// The candidate of this rank exists: it is the configuration file.
    Found(usize),
    /// No candidate exists: a default configuration is to be written to the
    /// first candidate.
    Bootstrap,
}

pub open spec fn step_spec(index: int, exists: bool) -> Resolution {
    if exists {
        Resolution::Found(index as usize)
    } else if index + 1 < CANDIDATE_COUNT {
        Resolution::Probe((index + 1) as usize)
    } else {
        Resolution::Bootstrap
    }
}

/// The search begins at the first candidate.
pub fn first_step() -> (r: Resolution)
    ensures
        r == Resolution::Probe(0),
{
    Resolution::Probe(0)
}

/// The next step once the candidate of rank `index` has been checked: a hit
/// ends the search, a miss moves on to the next rank.
pub fn after_probe(index: usize, exists: bool) -> (r: Resolution)
    requires
        index < CANDIDATE_COUNT,
    ensures
        r == step_spec(index as int, exists),
{
    if exists {
        Resolution::Found(index)
    } else if index + 1 < CANDIDATE_COUNT {
        Resolution::Probe(index + 1)
    } else {
        Resolution::Bootstrap
    }
}

/// The ranks that the search checks from rank `i` on, when `exists` says
/// which candidates exist, and where it ends.
pub open spec fn run_from(exists: Seq<bool>, i: int) -> (Seq<int>, Resolution)
    decreases CANDIDATE_COUNT - i,
{
    if i < 0 || i >= CANDIDATE_COUNT {
        (Seq::empty(), Resolution::Bootstrap)
    } else {
        match step_spec(i, exists[i]) {
            Resolution::Probe(_) => {
                let rest = run_from(exists, i + 1);
                (seq![i] + rest.0, rest.1)
            },
            other => (seq![i], other),
        }
    }
}

pub open spec fn ranks_upto(n: int) -> Seq<int> {
    Seq::new(n as nat, |j: int| j)
}

proof fn lemma_run_from(exists: Seq<bool>, i: int)
    requires
        exists.len() == CANDIDATE_COUNT,
        0 <= i < CANDIDATE_COUNT,
    ensures
        ({
            let (probed, r) = run_from(exists, i);
            match r {
                Resolution::Found(k) => {
                    &&& i <= k < CANDIDATE_COUNT
                    &&& exists[k as int]
                    &&& forall|j: int| i <= j < k ==> !exists[j]
                    &&& probed == Seq::new((k - i + 1) as nat, |j: int| j + i)
                },
                Resolution::Bootstrap => {
                    &&& forall|j: int| i <= j < CANDIDATE_COUNT ==> !exists[j]
                    &&& probed == Seq::new((CANDIDATE_COUNT - i) as nat, |j: int| j + i)
                },
                Resolution::Probe(_) => false,
            }
        }),
    decreases CANDIDATE_COUNT - i,
{
    if !exists[i] && i + 1 < CANDIDATE_COUNT {
        lemma_run_from(exists, i + 1);
        let rest = run_from(exists, i + 1);
        match rest.1 {
            Resolution::Found(k) => {
                assert(seq![i] + rest.0 =~= Seq::new((k - i + 1) as nat, |j: int| j + i));
            },
            _ => {
                assert(seq![i] + rest.0 =~= Seq::new((CANDIDATE_COUNT - i) as nat, |j: int| j + i));
            },
        }
    } else {
        assert(seq![i] =~= Seq::new(1, |j: int| j + i));
    }
}

/// Whatever set of candidates exists, the search ends at the lowest-ranked
/// one that exists, having checked exactly the ranks up to it and none after;
/// when none exists it checks every rank and ends in a bootstrap.
pub proof fn lemma_first_hit(exists: Seq<bool>)
    requires
        exists.len() == CANDIDATE_COUNT,
    ensures
        ({
            let (probed, r) = run_from(exists, 0);
            match r {
                Resolution::Found(k) => {
                    &&& k < CANDIDATE_COUNT
                    &&& exists[k as int]
                    &&& forall|j: int| 0 <= j < k ==> !exists[j]
                    &&& probed == ranks_upto(k + 1)
                },
                Resolution::Bootstrap => {
                    &&& forall|j: int| 0 <= j < CANDIDATE_COUNT ==> !exists[j]
                    &&& probed == ranks_upto(CANDIDATE_COUNT as int)
                },
                Resolution::Probe(_) => false,
            }
        }),
{
    lemma_run_from(exists, 0);
    let (probed, r) = run_from(exists, 0);
    match r {
        Resolution::Found(k) => {
            assert(probed =~= ranks_upto(k + 1));
        },
        _ => {
            assert(probed =~= ranks_upto(CANDIDATE_COUNT as int));
        },
    }
}

} // verus!
