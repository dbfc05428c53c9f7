use vstd::prelude::*;
use vstd::string::StringExecFns;

verus! {

/// The balance a token must exceed to show the sapling stage.
pub const SAPLING_THRESHOLD: u128 = 1_000_000;

/// The balance a token must exceed to show the tree stage.
pub const TREE_THRESHOLD: u128 = 10_000_000;

/// The balance a token must exceed to show the full-grown stage.
pub const FULLGROWN_THRESHOLD: u128 = 100_000_000;

/// The metadata URI of one token at one growth stage:
/// `<base>/<token_id>/<file>`.
pub open spec fn spec_token_uri(base: Seq<char>, token_id: Seq<char>, file: Seq<char>) -> Seq<
    char,
> {
    base + "/"@ + token_id + "/"@ + file
}

/// The metadata file for a balance, by the ordered threshold table: the
/// highest threshold the balance exceeds names the stage, and a balance at
/// or below the lowest threshold names none (the URI is left unchanged).
pub open spec fn spec_stage_file(balance: u128) -> Option<Seq<char>> {
    if balance > FULLGROWN_THRESHOLD {
        Some("fullgrown.json"@)
    } else if balance > TREE_THRESHOLD {
        Some("tree.json"@)
    } else if balance > SAPLING_THRESHOLD {
        Some("sapling.json"@)
    } else {
        None
    }
}

/// The URI a freshly minted token starts with.
pub open spec fn spec_initial_uri(base: Seq<char>, token_id: Seq<char>) -> Seq<char> {
    spec_token_uri(base, token_id, "seedling.json"@)
}

/// The URI a balance entitles a token to, if the balance clears any
/// threshold at all.
pub open spec fn spec_derived_uri(base: Seq<char>, token_id: Seq<char>, balance: u128) -> Option<
    Seq<char>,
> {
    match spec_stage_file(balance) {
        Some(file) => Some(spec_token_uri(base, token_id, file)),
        None => None,
    }
}

/// Joins base, token id and metadata file into one URI.
pub fn token_uri(base: &String, token_id: &str, file: &str) -> (r: String)
    ensures
        r@ == spec_token_uri(base@, token_id@, file@),
{
    let r = base.clone().concat("/").concat(token_id).concat("/").concat(file);
    proof {
        assert(r@ =~= spec_token_uri(base@, token_id@, file@));
    }
    r
}

/// The metadata file for a balance, walking the threshold table in
/// ascending order; the highest matching stage wins.
fn stage_file(balance: u128) -> (r: Option<&'static str>)
    ensures
        match r {
            Some(file) => spec_stage_file(balance) == Some(file@),
            None => spec_stage_file(balance) is None,
        },
{
    let mut best: Option<&'static str> = None;
    if balance > SAPLING_THRESHOLD {
        best = Some("sapling.json");
    }
    if balance > TREE_THRESHOLD {
        best = Some("tree.json");
    }
    if balance > FULLGROWN_THRESHOLD {
        best = Some("fullgrown.json");
    }
    best
}

/// The URI a token must display once its balance is `balance`, or `None`
/// when the balance clears no threshold and the URI stays as it is.
pub fn derive_token_uri(base: &String, token_id: &String, balance: u128) -> (r: Option<String>)
    ensures
        match r {
            Some(uri) => spec_derived_uri(base@, token_id@, balance) == Some(uri@),
            None => spec_derived_uri(base@, token_id@, balance) is None,
        },
{
    match stage_file(balance) {
        Some(file) => Some(token_uri(base, token_id.as_str(), file)),
        None => None,
    }
}

/// The URI a freshly minted token starts with: the seedling stage.
pub fn initial_token_uri(base: &String, token_id: &str) -> (r: String)
    ensures
        r@ == spec_initial_uri(base@, token_id@),
{
    token_uri(base, token_id, "seedling.json")
}

} // verus!
