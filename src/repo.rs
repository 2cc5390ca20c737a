use vstd::prelude::*;

verus! {

/// The repository a run works on: `owner/name`, and the directory inside it.
pub struct RepoRef {
    pub owner: String,
    pub name: String,
    pub subpath: String,
}

/// Why no repository could be determined.
#[derive(Debug, Clone, Copy, PartialEq, Eq, Structural)]
pub enum ResolveError {
    /// Neither the command line nor the configuration file gave an identifier.
    MissingIdentifier,
    /// The identifier holds no `/` between owner and repository.
    MalformedIdentifier,
}

/// Does `s` hold a `/` anywhere?
pub open spec fn has_slash(s: Seq<char>) -> bool {
    exists|i: int| 0 <= i < s.len() && s[i] == '/'
}

/// `id` splits at its first `/` into `owner` and `name`.
pub open spec fn splits_into(id: Seq<char>, owner: Seq<char>, name: Seq<char>) -> bool {
    &&& !has_slash(owner)
    &&& id == owner + seq!['/'] + name
}

/// The identifier in force: the command-line one if given, else the configured one, verbatim.
pub open spec fn chosen_identifier(arg: Option<Seq<char>>, config: Option<Seq<char>>) -> Option<
    Seq<char>,
> {
    match arg {
        Some(a) => Some(a),
        None => config,
    }
}

/// The text an optional string holds, if any.
pub open spec fn opt_view(o: Option<String>) -> Option<Seq<char>> {
    match o {
        Some(s) => Some(s@),
        None => None,
    }
}

/// The sub-path in force: the one given, or the repository root.
pub open spec fn chosen_subpath(path: Option<Seq<char>>) -> Seq<char> {
    match path {
        Some(p) => p,
        None => Seq::empty(),
    }
}

/// The fixed prefix of every listing URL.
pub open spec fn api_base() -> Seq<char> {
    "https://api.github.com/repos/"@
}

/// The listing endpoint for `owner/name` at `subpath`.
pub open spec fn listing_url_of(owner: Seq<char>, name: Seq<char>, subpath: Seq<char>) -> Seq<
    char,
> {
    api_base() + owner + "/"@ + name + "/contents/"@ + subpath
}

/// Takes the command-line identifier if there is one, else the configuration file's content.
/// The configured text is taken as it stands, whitespace included.
pub fn pick_identifier(arg: Option<String>, config: Option<String>) -> (r: Option<String>)
    ensures
        opt_view(r) == chosen_identifier(opt_view(arg), opt_view(config)),
        arg is None ==> r == config,
{
    match arg {
        Some(a) => Some(a),
        None => config,
    }
}

/// Position of the first `/` in `s`, if any.
fn first_slash(s: &str) -> (r: Option<usize>)
    ensures
        match r {
            Some(i) => i < s@.len() && s@[i as int] == '/' && !has_slash(s@.subrange(0, i as int)),
            None => !has_slash(s@),
        },
{
    let n = s.unicode_len();
    let mut i: usize = 0;
    while i < n
        invariant
            n == s@.len(),
            i <= n,
            forall|j: int| 0 <= j < i ==> s@[j] != '/',
        decreases n - i,
    {
        if s.get_char(i) == '/' {
            assert(!has_slash(s@.subrange(0, i as int))) by {
                assert(forall|j: int| 0 <= j < i ==> s@.subrange(0, i as int)[j] == s@[j]);
            }
            return Some(i);
        }
        i = i + 1;
    }
    None
}

/// Splits an identifier at its first `/` into owner and repository name.
/// Returns `None` when it holds no `/`.
pub fn split_identifier(id: &str) -> (r: Option<(String, String)>)
    ensures
        match r {
            Some((owner, name)) => splits_into(id@, owner@, name@),
            None => !has_slash(id@),
        },
        r is Some <==> has_slash(id@),
{
    match first_slash(id) {
        None => None,
        Some(i) => {
            let n = id.unicode_len();
            let owner = String::from_str(id.substring_char(0, i));
            let name = String::from_str(id.substring_char(i + 1, n));
            assert(id@ =~= owner@ + seq!['/'] + name@);
            Some((owner, name))
        },
    }
}

/// A split at the first `/` is unique.
pub proof fn lemma_split_unique(id: Seq<char>, o1: Seq<char>, n1: Seq<char>, o2: Seq<char>, n2: Seq<char>)
    requires
        splits_into(id, o1, n1),
        splits_into(id, o2, n2),
    ensures
        o1 == o2,
        n1 == n2,
{
    if o1.len() < o2.len() {
        assert(o2[o1.len() as int] == id[o1.len() as int]);
        assert(has_slash(o2));
    } else if o2.len() < o1.len() {
        assert(o1[o2.len() as int] == id[o2.len() as int]);
        assert(has_slash(o1));
    } else {
        assert(o1 =~= id.subrange(0, o1.len() as int));
        assert(o2 =~= id.subrange(0, o2.len() as int));
        assert(n1 =~= id.subrange(o1.len() as int + 1, id.len() as int));
        assert(n2 =~= id.subrange(o2.len() as int + 1, id.len() as int));
    }
}

/// Determines the repository from the first and second command-line arguments and the
/// configuration file's content (`None` where the file is absent or unreadable).
pub fn resolve(arg: Option<String>, path: Option<String>, config: Option<String>) -> (r: Result<
    RepoRef,
    ResolveError,
>)
    ensures
        match chosen_identifier(opt_view(arg), opt_view(config)) {
            None => r == Err::<RepoRef, ResolveError>(ResolveError::MissingIdentifier),
            Some(id) => if has_slash(id) {
                r is Ok && splits_into(id, r->Ok_0.owner@, r->Ok_0.name@)
                    && r->Ok_0.subpath@ == chosen_subpath(opt_view(path))
            } else {
                r == Err::<RepoRef, ResolveError>(ResolveError::MalformedIdentifier)
            },
        },
{
    let id = match pick_identifier(arg, config) {
        Some(id) => id,
        None => return Err(ResolveError::MissingIdentifier),
    };
    match split_identifier(id.as_str()) {
        None => Err(ResolveError::MalformedIdentifier),
        Some((owner, name)) => {
            let subpath = match path {
                Some(p) => p,
                None => String::new(),
            };
            Ok(RepoRef { owner, name, subpath })
        },
    }
}

/// An identifier `owner/name` whose owner holds no `/` always splits, and only into that
/// owner and that name; with `resolve`'s contract this fixes the owner, name and sub-path it
/// returns for every such identifier.
pub proof fn lemma_identifier_splits_exactly(
    owner: Seq<char>,
    name: Seq<char>,
    split_owner: Seq<char>,
    split_name: Seq<char>,
)
    requires
        !has_slash(owner),
        splits_into(owner + seq!['/'] + name, split_owner, split_name),
    ensures
        has_slash(owner + seq!['/'] + name),
        split_owner == owner,
        split_name == name,
{
    let id = owner + seq!['/'] + name;
    assert(id[owner.len() as int] == '/');
    lemma_split_unique(id, owner, name, split_owner, split_name);
}

/// Without a command-line identifier, the configuration file's content is the identifier,
/// exactly as read: nothing is trimmed.
pub proof fn lemma_config_verbatim(config: Option<Seq<char>>)
    ensures
        chosen_identifier(None, config) == config,
{
}

/// Builds the URL of the listing endpoint for `repo`.
pub fn listing_url(repo: &RepoRef) -> (r: String)
    ensures
        r@ == listing_url_of(repo.owner@, repo.name@, repo.subpath@),
{
    let mut url = String::from_str("https://api.github.com/repos/");
    url.append(repo.owner.as_str());
    url.append("/");
    url.append(repo.name.as_str());
    url.append("/contents/");
    url.append(repo.subpath.as_str());
    url
}

/// The configuration file's path under the home directory `home`.
pub fn config_path(home: &str) -> (r: String)
    ensures
        r@ == home@ + "/.boilerfiles"@,
{
    let mut p = String::from_str(home);
    p.append("/.boilerfiles");
    p
}

} // verus!
