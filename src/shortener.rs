//! A URL shortener: links are stored under unique slugs and count their redirects.
use rand::Rng;
use vstd::prelude::*;

verus! {

/// All possible errors of the [`UrlShortenerService`].
#[derive(Clone, Copy, Debug, PartialEq, Eq, Structural)]
pub enum ShortenerError {
    /// An invalid [`Url`] was given for shortening.
    InvalidUrl,
    /// The slug (custom alias) is already in use.
    SlugAlreadyInUse,
    /// The [`Slug`] maps to no short link.
    SlugNotFound,
}

/// A unique string (or alias) that stands for the shortened URL.
#[derive(Clone, Debug, PartialEq, Eq, Hash)]
pub struct Slug(pub String);

/// The original URL that a short link points to.
#[derive(Clone, Debug, PartialEq)]
pub struct Url(pub String);

/// A shortened URL.
#[derive(Clone, Debug, PartialEq)]
pub struct ShortLink {
    /// The slug that stands for the URL.
    pub slug: Slug,
    /// The original URL.
    pub url: Url,
}

/// Statistics of a [`ShortLink`].
#[derive(Clone, Debug, PartialEq)]
pub struct Stats {
    /// The link these statistics belong to.
    pub link: ShortLink,
    /// How many times the link was followed.
    pub redirects: u64,
}

/// A stored link as plain values: slug, URL and redirect count.
pub type LinkRecord = (Seq<char>, Seq<char>, u64);

impl Stats {
    pub open spec fn record(&self) -> LinkRecord {
        (self.link.slug.0@, self.link.url.0@, self.redirects)
    }
}

/// The characters a generated slug is drawn from.
pub const SLUG_CHARSET: &'static str = "ABCDEFGHIJKLMNOPQRSTUVWXYZabcdefghijklmnopqrstuvwxyz1234567890";

/// The length of a generated slug.
pub const SLUG_LEN: usize = 6;

/// How many slugs are drawn at random before the free slugs are searched in order.
pub const SLUG_ATTEMPTS: u32 = 1000;

/// Whether `prefix` begins `s`.
pub open spec fn has_prefix(s: Seq<char>, prefix: Seq<char>) -> bool {
    prefix.len() <= s.len() && s.take(prefix.len() as int) == prefix
}

/// Whether `url` starts with `http://` or `https://`.
pub open spec fn valid_url_spec(url: Seq<char>) -> bool {
    has_prefix(url, "http://"@) || has_prefix(url, "https://"@)
}

/// Whether `slug` has the length and the characters of a generated slug.
pub open spec fn is_generated_slug(slug: Seq<char>) -> bool {
    &&& slug.len() == SLUG_LEN
    &&& forall|i: int| 0 <= i < slug.len() ==> SLUG_CHARSET@.contains(#[trigger] slug[i])
}

/// No two records share a slug.
pub open spec fn slugs_unique(records: Seq<LinkRecord>) -> bool {
    forall|i: int, j: int|
        0 <= i < records.len() && 0 <= j < records.len() && i != j ==> records[i].0 != records[j].0
}

/// Whether some record has `slug`.
pub open spec fn has_slug(records: Seq<LinkRecord>, slug: Seq<char>) -> bool {
    exists|i: int| 0 <= i < records.len() && #[trigger] records[i].0 == slug
}

/// `i` is the first position of a record with `slug`.
pub open spec fn is_first_position(records: Seq<LinkRecord>, slug: Seq<char>, i: int) -> bool {
    &&& 0 <= i < records.len()
    &&& records[i].0 == slug
    &&& forall|j: int| 0 <= j < i ==> #[trigger] records[j].0 != slug
}

/// The first position of a record with `slug`.
pub open spec fn slug_position(records: Seq<LinkRecord>, slug: Seq<char>) -> int {
    choose|i: int| is_first_position(records, slug, i)
}

/// Adding a record whose slug is not in use keeps the slugs unique.
proof fn lemma_push_fresh_keeps_unique(records: Seq<LinkRecord>, record: LinkRecord)
    requires
        slugs_unique(records),
        !has_slug(records, record.0),
    ensures
        slugs_unique(records.push(record)),
{
    let pushed = records.push(record);
    assert forall|i: int, j: int|
        0 <= i < pushed.len() && 0 <= j < pushed.len() && i != j implies pushed[i].0
        != pushed[j].0 by {
        if i == records.len() {
            assert(pushed[j] == records[j]);
        } else if j == records.len() {
            assert(pushed[i] == records[i]);
        } else {
            assert(pushed[i] == records[i] && pushed[j] == records[j]);
        }
    }
}

/// Changing a record without changing its slug keeps the slugs unique.
proof fn lemma_update_keeps_unique(records: Seq<LinkRecord>, i: int, record: LinkRecord)
    requires
        slugs_unique(records),
        0 <= i < records.len(),
        record.0 == records[i].0,
    ensures
        slugs_unique(records.update(i, record)),
{
    let updated = records.update(i, record);
    assert forall|a: int, b: int|
        0 <= a < updated.len() && 0 <= b < updated.len() && a != b implies updated[a].0
        != updated[b].0 by {
        assert(updated[a].0 == records[a].0 && updated[b].0 == records[b].0);
    }
}

/// Whether `prefix` begins `s`, compared character by character.
fn starts_with(s: &str, prefix: &str) -> (r: bool)
    ensures
        r == has_prefix(s@, prefix@),
{
    let n: usize = prefix.unicode_len();
    let m: usize = s.unicode_len();
    if n > m {
        return false;
    }
    let mut i: usize = 0;
    while i < n
        invariant
            n == prefix@.len(),
            m == s@.len(),
            n <= m,
            i <= n,
            forall|j: int| 0 <= j < i ==> s@[j] == prefix@[j],
        decreases n - i,
    {
        if s.get_char(i) != prefix.get_char(i) {
            assert(s@.take(n as int)[i as int] != prefix@[i as int]);
            return false;
        }
        i = i + 1;
    }
    assert(s@.take(n as int) =~= prefix@);
    true
}

/// Relies on `rand::thread_rng` and `Rng::gen_range`, which panics on an empty range:
/// a number drawn below `n`.
#[verifier::external_body]
fn random_below(n: usize) -> (r: usize)
    requires
        n > 0,
    ensures
        r < n,
{
    rand::thread_rng().gen_range(0..n)
}

/// Commands of the service.
pub trait CommandHandler {
    /// Creates a short link for `url`, under `slug` when one is given and under a
    /// generated one otherwise.
    fn handle_create_short_link(&mut self, url: Url, slug: Option<Slug>) -> Result<
        ShortLink,
        ShortenerError,
    >;

    /// Follows the link of `slug`, counting the redirect.
    fn handle_redirect(&mut self, slug: Slug) -> Result<ShortLink, ShortenerError>;
}

/// Queries of the service.
pub trait QueryHandler {
    /// The statistics of the link of `slug`.
    fn get_stats(&self, slug: Slug) -> Result<Stats, ShortenerError>;
}

/// The link store: one entry per slug, in order of creation.
pub struct UrlShortenerService {
    entries: Vec<Stats>,
}

/// A copy of a link, made field by field.
fn copy_link(link: &ShortLink) -> (r: ShortLink)
    ensures
        r.slug.0@ == link.slug.0@,
        r.url.0@ == link.url.0@,
{
    ShortLink { slug: Slug(link.slug.0.clone()), url: Url(link.url.0.clone()) }
}

impl UrlShortenerService {
    /// The stored links, in order of creation.
    pub closed spec fn records(&self) -> Seq<LinkRecord> {
        self.entries@.map_values(|e: Stats| e.record())
    }

    /// An empty store.
    pub fn new() -> (r: Self)
        ensures
            r.records() == Seq::<LinkRecord>::empty(),
            slugs_unique(r.records()),
    {
        let r = UrlShortenerService { entries: Vec::new() };
        assert(r.records() =~= Seq::<LinkRecord>::empty());
        r
    }

    /// Whether `url` starts with `http://` or `https://`.
    pub fn valid_url(url: &str) -> (r: bool)
        ensures
            r == valid_url_spec(url@),
    {
        starts_with(url, "http://") || starts_with(url, "https://")
    }

    /// A slug of six characters drawn at random from the slug characters.
    pub fn generate_slug() -> (r: Slug)
        ensures
            is_generated_slug(r.0@),
    {
        proof {
            reveal_strlit("ABCDEFGHIJKLMNOPQRSTUVWXYZabcdefghijklmnopqrstuvwxyz1234567890");
        }
        let mut slug = String::new();
        let mut k: usize = 0;
        while k < SLUG_LEN
            invariant
                k <= SLUG_LEN,
                slug@.len() == k,
                SLUG_CHARSET@.len() == 62,
                forall|i: int| 0 <= i < k ==> SLUG_CHARSET@.contains(#[trigger] slug@[i]),
            decreases SLUG_LEN - k,
        {
            let at: usize = random_below(62);
            let piece = SLUG_CHARSET.substring_char(at, at + 1);
            proof {
                assert(piece@[0] == SLUG_CHARSET@[at as int]);
            }
            let ghost before = slug@;
            slug.append(piece);
            proof {
                assert forall|i: int| 0 <= i < k + 1 implies SLUG_CHARSET@.contains(
                    #[trigger] slug@[i],
                ) by {
                    if i < k {
                        assert(slug@[i] == before[i]);
                    } else {
                        assert(slug@[i] == piece@[0]);
                    }
                }
            }
            k = k + 1;
        }
        Slug(slug)
    }

    /// The position of the entry with `slug`, if there is one.
    fn find(&self, slug: &String) -> (r: Option<usize>)
        ensures
            r matches Some(i) ==> i < self.records().len() && self.records()[i as int].0 == slug@
                && i == slug_position(self.records(), slug@),
            r is None ==> !has_slug(self.records(), slug@),
    {
        let mut i: usize = 0;
        while i < self.entries.len()
            invariant
                i <= self.entries@.len(),
                forall|j: int| 0 <= j < i ==> #[trigger] self.records()[j].0 != slug@,
            decreases self.entries@.len() - i,
        {
            if self.entries[i].link.slug.0 == *slug {
                proof {
                    let recs = self.records();
                    assert(is_first_position(recs, slug@, i as int));
                    let p = slug_position(recs, slug@);
                    assert(is_first_position(recs, slug@, p));
                    if p < i {
                        assert(recs[p].0 != slug@);
                    }
                    if p > i {
                        assert(recs[i as int].0 != slug@);
                    }
                }
                return Some(i);
            }
            assert(self.records()[i as int].0 != slug@);
            i = i + 1;
        }
        None
    }

    /// Searches the generated slugs that begin with `prefix`, in the order of the slug
    /// characters, for one that is not in use.
    fn find_free_slug(&self, prefix: &String) -> (r: Option<Slug>)
        requires
            prefix@.len() <= SLUG_LEN,
            forall|i: int| 0 <= i < prefix@.len() ==> SLUG_CHARSET@.contains(#[trigger] prefix@[i]),
        ensures
            r matches Some(s) ==> is_generated_slug(s.0@) && !has_slug(self.records(), s.0@),
            r is None ==> forall|s: Seq<char>|
                is_generated_slug(s) && s.take(prefix@.len() as int) == prefix@
                    ==> #[trigger] has_slug(self.records(), s),
        decreases SLUG_LEN - prefix@.len(),
    {
        proof {
            reveal_strlit("ABCDEFGHIJKLMNOPQRSTUVWXYZabcdefghijklmnopqrstuvwxyz1234567890");
        }
        let k: usize = prefix.as_str().unicode_len();
        if k == SLUG_LEN {
            return match self.find(prefix) {
                None => Some(Slug(prefix.clone())),
                Some(_) => {
                    proof {
                        assert forall|s: Seq<char>|
                            is_generated_slug(s) && s.take(k as int) == prefix@ implies #[trigger] has_slug(
                            self.records(),
                            s,
                        ) by {
                            assert(s.take(k as int) =~= s);
                        }
                    }
                    None
                },
            };
        }
        let mut j: usize = 0;
        while j < 62
            invariant
                k == prefix@.len(),
                k < SLUG_LEN,
                SLUG_CHARSET@.len() == 62,
                forall|i: int| 0 <= i < prefix@.len() ==> SLUG_CHARSET@.contains(#[trigger] prefix@[i]),
                j <= 62,
                forall|s: Seq<char>|
                    is_generated_slug(s) && s.take(k as int) == prefix@ && SLUG_CHARSET@.take(
                        j as int,
                    ).contains(s[k as int]) ==> #[trigger] has_slug(self.records(), s),
            decreases 62 - j,
        {
            let piece = SLUG_CHARSET.substring_char(j, j + 1);
            let mut candidate = prefix.clone();
            candidate.append(piece);
            proof {
                assert(candidate@ =~= prefix@.push(SLUG_CHARSET@[j as int]));
                assert forall|i: int| 0 <= i < candidate@.len() implies SLUG_CHARSET@.contains(
                    #[trigger] candidate@[i],
                ) by {
                    if i == k {
                        assert(SLUG_CHARSET@[j as int] == candidate@[i]);
                    }
                }
            }
            match self.find_free_slug(&candidate) {
                Some(slug) => {
                    return Some(slug);
                },
                None => {},
            }
            proof {
                assert forall|s: Seq<char>|
                    is_generated_slug(s) && s.take(k as int) == prefix@ && SLUG_CHARSET@.take(
                        j + 1,
                    ).contains(s[k as int]) implies #[trigger] has_slug(self.records(), s) by {
                    let w = choose|w: int|
                        0 <= w < j + 1 && #[trigger] SLUG_CHARSET@.take(j + 1)[w] == s[k as int];
                    if w < j {
                        assert(SLUG_CHARSET@.take(j as int)[w] == s[k as int]);
                    } else {
                        assert(s.take(k + 1) =~= s.take(k as int).push(s[k as int]));
                        assert(s.take(k + 1) == candidate@);
                    }
                }
            }
            j = j + 1;
        }
        proof {
            assert(SLUG_CHARSET@.take(62) =~= SLUG_CHARSET@);
        }
        None
    }

    /// Stores a new link under a slug that is not in use and returns it.
    fn insert(&mut self, url: Url, slug: Slug) -> (r: ShortLink)
        requires
            !has_slug(old(self).records(), slug.0@),
        ensures
            r.slug.0@ == slug.0@,
            r.url.0@ == url.0@,
            final(self).records() == old(self).records().push((slug.0@, url.0@, 0u64)),
            slugs_unique(old(self).records()) ==> slugs_unique(final(self).records()),
    {
        let link = ShortLink { slug, url };
        let result = copy_link(&link);
        let stats = Stats { link, redirects: 0 };
        let ghost before = self.records();
        self.entries.push(stats);
        assert(self.records() =~= before.push((result.slug.0@, result.url.0@, 0u64)));
        proof {
            if slugs_unique(before) {
                lemma_push_fresh_keeps_unique(before, (result.slug.0@, result.url.0@, 0u64));
            }
        }
        result
    }
}

impl CommandHandler for UrlShortenerService {
    fn handle_create_short_link(&mut self, url: Url, slug: Option<Slug>) -> (r: Result<
        ShortLink,
        ShortenerError,
    >)
        ensures
            !valid_url_spec(url.0@) ==> r == Err::<ShortLink, ShortenerError>(
                ShortenerError::InvalidUrl,
            ) && final(self).records() == old(self).records(),
            valid_url_spec(url.0@) && slug is Some && has_slug(
                old(self).records(),
                slug->Some_0.0@,
            ) ==> r == Err::<ShortLink, ShortenerError>(ShortenerError::SlugAlreadyInUse)
                && final(self).records() == old(self).records(),
            valid_url_spec(url.0@) && slug is Some && !has_slug(
                old(self).records(),
                slug->Some_0.0@,
            ) ==> (r matches Ok(link) && link.slug.0@ == slug->Some_0.0@ && link.url.0@
                == url.0@ && final(self).records() == old(self).records().push(
                (link.slug.0@, url.0@, 0u64),
            )),
            valid_url_spec(url.0@) && slug is None ==> match r {
                Ok(link) => {
                    &&& is_generated_slug(link.slug.0@)
                    &&& !has_slug(old(self).records(), link.slug.0@)
                    &&& link.url.0@ == url.0@
                    &&& final(self).records() == old(self).records().push(
                        (link.slug.0@, url.0@, 0u64),
                    )
                },
                Err(e) => {
                    &&& e == ShortenerError::SlugAlreadyInUse
                    &&& final(self).records() == old(self).records()
                    &&& forall|s: Seq<char>|
                        is_generated_slug(s) ==> #[trigger] has_slug(old(self).records(), s)
                },
            },
            slugs_unique(old(self).records()) ==> slugs_unique(final(self).records()),
    {
        if !Self::valid_url(url.0.as_str()) {
            return Err(ShortenerError::InvalidUrl);
        }
        match slug {
            Some(s) => {
                if self.find(&s.0).is_some() {
                    return Err(ShortenerError::SlugAlreadyInUse);
                }
                Ok(self.insert(url, s))
            },
            None => {
                let mut attempts: u32 = 0;
                while attempts < SLUG_ATTEMPTS
                    invariant
                        self.records() == old(self).records(),
                        valid_url_spec(url.0@),
                        slug is None,
                    decreases SLUG_ATTEMPTS - attempts,
                {
                    let candidate = Self::generate_slug();
                    if self.find(&candidate.0).is_none() {
                        return Ok(self.insert(url, candidate));
                    }
                    attempts = attempts + 1;
                }
                let empty = String::new();
                match self.find_free_slug(&empty) {
                    Some(candidate) => Ok(self.insert(url, candidate)),
                    None => {
                        proof {
                            assert forall|s: Seq<char>| is_generated_slug(s) implies #[trigger] has_slug(
                                old(self).records(),
                                s,
                            ) by {
                                assert(s.take(0) =~= empty@);
                            }
                        }
                        Err(ShortenerError::SlugAlreadyInUse)
                    },
                }
            },
        }
    }

    fn handle_redirect(&mut self, slug: Slug) -> (r: Result<ShortLink, ShortenerError>)
        ensures
            !has_slug(old(self).records(), slug.0@) ==> r == Err::<ShortLink, ShortenerError>(
                ShortenerError::SlugNotFound,
            ) && final(self).records() == old(self).records(),
            has_slug(old(self).records(), slug.0@) ==> ({
                let i = slug_position(old(self).records(), slug.0@);
                let rec = old(self).records()[i];
                &&& r matches Ok(link) && link.slug.0@ == slug.0@ && link.url.0@ == rec.1
                &&& final(self).records() == old(self).records().update(
                    i,
                    (rec.0, rec.1, rec.2.saturating_add(1)),
                )
            }),
            slugs_unique(old(self).records()) ==> slugs_unique(final(self).records()),
    {
        match self.find(&slug.0) {
            None => Err(ShortenerError::SlugNotFound),
            Some(i) => {
                let link = copy_link(&self.entries[i].link);
                let stats = Stats {
                    link: copy_link(&link),
                    redirects: self.entries[i].redirects.saturating_add(1),
                };
                let ghost before = self.records();
                self.entries.set(i, stats);
                assert(self.records() =~= before.update(
                    i as int,
                    (before[i as int].0, before[i as int].1, before[i as int].2.saturating_add(1)),
                ));
                proof {
                    if slugs_unique(before) {
                        lemma_update_keeps_unique(
                            before,
                            i as int,
                            (before[i as int].0, before[i as int].1, before[i as int].2.saturating_add(1)),
                        );
                    }
                }
                Ok(link)
            },
        }
    }
}

impl QueryHandler for UrlShortenerService {
    fn get_stats(&self, slug: Slug) -> (r: Result<Stats, ShortenerError>)
        ensures
            !has_slug(self.records(), slug.0@) ==> r == Err::<Stats, ShortenerError>(
                ShortenerError::SlugNotFound,
            ),
            has_slug(self.records(), slug.0@) ==> (r matches Ok(stats) && stats.record()
                == self.records()[slug_position(self.records(), slug.0@)]),
    {
        match self.find(&slug.0) {
            None => Err(ShortenerError::SlugNotFound),
            Some(i) => {
                let entry = &self.entries[i];
                Ok(Stats { link: copy_link(&entry.link), redirects: entry.redirects })
            },
        }
    }
}

} // verus!
