//! The registry of known publishers: from a publisher's key to the address of
//! the page that lists its series.

use crate::error::ErrorKind;
use crate::site::CORE_URL;
use crate::text::starts_with;
use vstd::prelude::*;

verus! {

pub const MARVEL_URL: &'static str =
    "https://comicbookroundup.com/comic-books/reviews/marvel-comics/all-series";

pub const DC_URL: &'static str =
    "https://comicbookroundup.com/comic-books/reviews/dc-comics/all-series";

pub const IMAGE_URL: &'static str =
    "https://comicbookroundup.com/comic-books/reviews/image-comics/all-series";

pub const IDW_URL: &'static str =
    "https://comicbookroundup.com/comic-books/reviews/idw-publishing/all-series";

pub const DARK_HORSE_URL: &'static str =
    "https://comicbookroundup.com/comic-books/reviews/dark-horse-comics/all-series";

pub const BOOM_URL: &'static str =
    "https://comicbookroundup.com/comic-books/reviews/boom-studios/all-series";

pub const DYNAMITE_URL: &'static str =
    "https://comicbookroundup.com/comic-books/reviews/dynamite-entertainment/all-series";

pub const VALIANT_URL: &'static str =
    "https://comicbookroundup.com/comic-books/reviews/valiant-comics/all-series";

pub const VERTIGO_URL: &'static str =
    "https://comicbookroundup.com/comic-books/reviews/vertigo/all-series";

pub const ONI_URL: &'static str =
    "https://comicbookroundup.com/comic-books/reviews/oni-press/all-series";

pub const AFTERSHOCK_URL: &'static str =
    "https://comicbookroundup.com/comic-books/reviews/aftershock-comics/all-series";

pub const ARCHIE_URL: &'static str =
    "https://comicbookroundup.com/comic-books/reviews/archie-comics/all-series";

pub const TITAN_URL: &'static str =
    "https://comicbookroundup.com/comic-books/reviews/titan-books/all-series";

pub const ZENESCOPE_URL: &'static str =
    "https://comicbookroundup.com/comic-books/reviews/zenescope-entertainment/all-series";

pub const BLACK_MASK_URL: &'static str =
    "https://comicbookroundup.com/comic-books/reviews/black-mask-studios/all-series";

pub const RED_5_URL: &'static str =
    "https://comicbookroundup.com/comic-books/reviews/red-5-comics/all-series";

pub const VAULT_URL: &'static str =
    "https://comicbookroundup.com/comic-books/reviews/vault-comics/all-series";

/// The known publishers: each key with the address of its listing page.
pub open spec fn known_publishers() -> Map<Seq<char>, Seq<char>> {
    map![
        "marvel"@ => MARVEL_URL@,
        "dc"@ => DC_URL@,
        "image"@ => IMAGE_URL@,
        "idw"@ => IDW_URL@,
        "dark horse"@ => DARK_HORSE_URL@,
        "boom"@ => BOOM_URL@,
        "dynamite"@ => DYNAMITE_URL@,
        "valiant"@ => VALIANT_URL@,
        "vertigo"@ => VERTIGO_URL@,
        "oni"@ => ONI_URL@,
        "aftershock"@ => AFTERSHOCK_URL@,
        "archie"@ => ARCHIE_URL@,
        "titan"@ => TITAN_URL@,
        "zenescope"@ => ZENESCOPE_URL@,
        "black mask"@ => BLACK_MASK_URL@,
        "red 5"@ => RED_5_URL@,
        "vault"@ => VAULT_URL@,
    ]
}

/// The keys of the known publishers.
pub open spec fn known_keys() -> Set<Seq<char>> {
    set![
        "marvel"@,
        "dc"@,
        "image"@,
        "idw"@,
        "dark horse"@,
        "boom"@,
        "dynamite"@,
        "valiant"@,
        "vertigo"@,
        "oni"@,
        "aftershock"@,
        "archie"@,
        "titan"@,
        "zenescope"@,
        "black mask"@,
        "red 5"@,
        "vault"@,
    ]
}

/// The known publishers are those of the seventeen known keys, and no other.
pub proof fn lemma_known_keys()
    ensures
        known_publishers().dom() == known_keys(),
{
    assert(known_publishers().dom() =~= known_keys());
}

/// Each known key is distinct from the others, so each keeps its own address.
pub proof fn lemma_known_addresses()
    ensures
        known_publishers()["marvel"@] == MARVEL_URL@,
        known_publishers()["dc"@] == DC_URL@,
        known_publishers()["image"@] == IMAGE_URL@,
        known_publishers()["idw"@] == IDW_URL@,
        known_publishers()["dark horse"@] == DARK_HORSE_URL@,
        known_publishers()["boom"@] == BOOM_URL@,
        known_publishers()["dynamite"@] == DYNAMITE_URL@,
        known_publishers()["valiant"@] == VALIANT_URL@,
        known_publishers()["vertigo"@] == VERTIGO_URL@,
        known_publishers()["oni"@] == ONI_URL@,
        known_publishers()["aftershock"@] == AFTERSHOCK_URL@,
        known_publishers()["archie"@] == ARCHIE_URL@,
        known_publishers()["titan"@] == TITAN_URL@,
        known_publishers()["zenescope"@] == ZENESCOPE_URL@,
        known_publishers()["black mask"@] == BLACK_MASK_URL@,
        known_publishers()["red 5"@] == RED_5_URL@,
        known_publishers()["vault"@] == VAULT_URL@,
{
    // Two keys differ in their length, or in one of their first two letters.
    reveal_strlit("marvel");
    reveal_strlit("dc");
    reveal_strlit("image");
    reveal_strlit("idw");
    reveal_strlit("dark horse");
    reveal_strlit("boom");
    reveal_strlit("dynamite");
    reveal_strlit("valiant");
    reveal_strlit("vertigo");
    reveal_strlit("oni");
    reveal_strlit("aftershock");
    reveal_strlit("archie");
    reveal_strlit("titan");
    reveal_strlit("zenescope");
    reveal_strlit("black mask");
    reveal_strlit("red 5");
    reveal_strlit("vault");
    assert("marvel"@.len() == 6 && "marvel"@[0] == 'm');
    assert("dc"@.len() == 2 && "dc"@[0] == 'd');
    assert("image"@.len() == 5 && "image"@[0] == 'i');
    assert("idw"@.len() == 3 && "idw"@[0] == 'i');
    assert("dark horse"@.len() == 10 && "dark horse"@[0] == 'd');
    assert("boom"@.len() == 4 && "boom"@[0] == 'b');
    assert("dynamite"@.len() == 8 && "dynamite"@[0] == 'd');
    assert("valiant"@.len() == 7 && "valiant"@[0] == 'v' && "valiant"@[1] == 'a');
    assert("vertigo"@.len() == 7 && "vertigo"@[0] == 'v' && "vertigo"@[1] == 'e');
    assert("oni"@.len() == 3 && "oni"@[0] == 'o');
    assert("aftershock"@.len() == 10 && "aftershock"@[0] == 'a');
    assert("archie"@.len() == 6 && "archie"@[0] == 'a');
    assert("titan"@.len() == 5 && "titan"@[0] == 't');
    assert("zenescope"@.len() == 9 && "zenescope"@[0] == 'z');
    assert("black mask"@.len() == 10 && "black mask"@[0] == 'b');
    assert("red 5"@.len() == 5 && "red 5"@[0] == 'r');
    assert("vault"@.len() == 5 && "vault"@[0] == 'v');
}

/// Every known address is a page of the site: it begins with the site's
/// origin.
pub proof fn lemma_known_addresses_absolute()
    ensures
        starts_with(MARVEL_URL@, CORE_URL@),
        starts_with(DC_URL@, CORE_URL@),
        starts_with(IMAGE_URL@, CORE_URL@),
        starts_with(IDW_URL@, CORE_URL@),
        starts_with(DARK_HORSE_URL@, CORE_URL@),
        starts_with(BOOM_URL@, CORE_URL@),
        starts_with(DYNAMITE_URL@, CORE_URL@),
        starts_with(VALIANT_URL@, CORE_URL@),
        starts_with(VERTIGO_URL@, CORE_URL@),
        starts_with(ONI_URL@, CORE_URL@),
        starts_with(AFTERSHOCK_URL@, CORE_URL@),
        starts_with(ARCHIE_URL@, CORE_URL@),
        starts_with(TITAN_URL@, CORE_URL@),
        starts_with(ZENESCOPE_URL@, CORE_URL@),
        starts_with(BLACK_MASK_URL@, CORE_URL@),
        starts_with(RED_5_URL@, CORE_URL@),
        starts_with(VAULT_URL@, CORE_URL@),
{
    reveal_strlit("https://comicbookroundup.com");
    assert(starts_with(MARVEL_URL@, CORE_URL@)) by {
        reveal_strlit("https://comicbookroundup.com/comic-books/reviews/marvel-comics/all-series");
        assert(MARVEL_URL@.subrange(0, 28) =~= CORE_URL@);
    }
    assert(starts_with(DC_URL@, CORE_URL@)) by {
        reveal_strlit("https://comicbookroundup.com/comic-books/reviews/dc-comics/all-series");
        assert(DC_URL@.subrange(0, 28) =~= CORE_URL@);
    }
    assert(starts_with(IMAGE_URL@, CORE_URL@)) by {
        reveal_strlit("https://comicbookroundup.com/comic-books/reviews/image-comics/all-series");
        assert(IMAGE_URL@.subrange(0, 28) =~= CORE_URL@);
    }
    assert(starts_with(IDW_URL@, CORE_URL@)) by {
        reveal_strlit("https://comicbookroundup.com/comic-books/reviews/idw-publishing/all-series");
        assert(IDW_URL@.subrange(0, 28) =~= CORE_URL@);
    }
    assert(starts_with(DARK_HORSE_URL@, CORE_URL@)) by {
        reveal_strlit("https://comicbookroundup.com/comic-books/reviews/dark-horse-comics/all-series");
        assert(DARK_HORSE_URL@.subrange(0, 28) =~= CORE_URL@);
    }
    assert(starts_with(BOOM_URL@, CORE_URL@)) by {
        reveal_strlit("https://comicbookroundup.com/comic-books/reviews/boom-studios/all-series");
        assert(BOOM_URL@.subrange(0, 28) =~= CORE_URL@);
    }
    assert(starts_with(DYNAMITE_URL@, CORE_URL@)) by {
        reveal_strlit("https://comicbookroundup.com/comic-books/reviews/dynamite-entertainment/all-series");
        assert(DYNAMITE_URL@.subrange(0, 28) =~= CORE_URL@);
    }
    assert(starts_with(VALIANT_URL@, CORE_URL@)) by {
        reveal_strlit("https://comicbookroundup.com/comic-books/reviews/valiant-comics/all-series");
        assert(VALIANT_URL@.subrange(0, 28) =~= CORE_URL@);
    }
    assert(starts_with(VERTIGO_URL@, CORE_URL@)) by {
        reveal_strlit("https://comicbookroundup.com/comic-books/reviews/vertigo/all-series");
        assert(VERTIGO_URL@.subrange(0, 28) =~= CORE_URL@);
    }
    assert(starts_with(ONI_URL@, CORE_URL@)) by {
        reveal_strlit("https://comicbookroundup.com/comic-books/reviews/oni-press/all-series");
        assert(ONI_URL@.subrange(0, 28) =~= CORE_URL@);
    }
    assert(starts_with(AFTERSHOCK_URL@, CORE_URL@)) by {
        reveal_strlit("https://comicbookroundup.com/comic-books/reviews/aftershock-comics/all-series");
        assert(AFTERSHOCK_URL@.subrange(0, 28) =~= CORE_URL@);
    }
    assert(starts_with(ARCHIE_URL@, CORE_URL@)) by {
        reveal_strlit("https://comicbookroundup.com/comic-books/reviews/archie-comics/all-series");
        assert(ARCHIE_URL@.subrange(0, 28) =~= CORE_URL@);
    }
    assert(starts_with(TITAN_URL@, CORE_URL@)) by {
        reveal_strlit("https://comicbookroundup.com/comic-books/reviews/titan-books/all-series");
        assert(TITAN_URL@.subrange(0, 28) =~= CORE_URL@);
    }
    assert(starts_with(ZENESCOPE_URL@, CORE_URL@)) by {
        reveal_strlit("https://comicbookroundup.com/comic-books/reviews/zenescope-entertainment/all-series");
        assert(ZENESCOPE_URL@.subrange(0, 28) =~= CORE_URL@);
    }
    assert(starts_with(BLACK_MASK_URL@, CORE_URL@)) by {
        reveal_strlit("https://comicbookroundup.com/comic-books/reviews/black-mask-studios/all-series");
        assert(BLACK_MASK_URL@.subrange(0, 28) =~= CORE_URL@);
    }
    assert(starts_with(RED_5_URL@, CORE_URL@)) by {
        reveal_strlit("https://comicbookroundup.com/comic-books/reviews/red-5-comics/all-series");
        assert(RED_5_URL@.subrange(0, 28) =~= CORE_URL@);
    }
    assert(starts_with(VAULT_URL@, CORE_URL@)) by {
        reveal_strlit("https://comicbookroundup.com/comic-books/reviews/vault-comics/all-series");
        assert(VAULT_URL@.subrange(0, 28) =~= CORE_URL@);
    }
}

/// One publisher of a registry.
#[derive(Debug, Clone)]
struct Entry {
    key: String,
    url: String,
}

/// A registry of publishers. It is built once and only read thereafter.
#[derive(Debug, Clone)]
pub struct PublisherRegistry {
    entries: Vec<Entry>,
}

/// The map that a list of entries stands for. Of two entries with one key
/// the later counts.
spec fn entries_map(entries: Seq<Entry>) -> Map<Seq<char>, Seq<char>>
    decreases entries.len(),
{
    if entries.len() == 0 {
        Map::empty()
    } else {
        entries_map(entries.drop_last()).insert(entries.last().key@, entries.last().url@)
    }
}

/// A key is in the map of a list of entries exactly where an entry has it,
/// and the map gives it the address of the last such entry.
proof fn lemma_entries_map(entries: Seq<Entry>, key: Seq<char>, from: int)
    requires
        0 <= from <= entries.len(),
        forall|k: int| from <= k < entries.len() ==> (#[trigger] entries[k]).key@ != key,
    ensures
        from == 0 ==> !entries_map(entries).contains_key(key),
        from > 0 && entries[from - 1].key@ == key ==> entries_map(entries).contains_key(key)
            && entries_map(entries)[key] == entries[from - 1].url@,
    decreases entries.len(),
{
    if entries.len() > from {
        let shorter = entries.drop_last();
        assert forall|k: int| from <= k < shorter.len() implies (#[trigger] shorter[k]).key@
            != key by {
            assert(shorter[k] == entries[k]);
        }
        lemma_entries_map(shorter, key, from);
    } else if from > 0 {
    }
}

impl View for PublisherRegistry {
    type V = Map<Seq<char>, Seq<char>>;

    closed spec fn view(&self) -> Map<Seq<char>, Seq<char>> {
        entries_map(self.entries@)
    }
}

impl PublisherRegistry {
    /// Enters a publisher, in place of any that had the same key.
    fn enter(&mut self, key: &str, url: &str)
        ensures
            final(self)@ == old(self)@.insert(key@, url@),
    {
        let ghost before = self.entries@;
        self.entries.push(Entry { key: key.to_owned(), url: url.to_owned() });
        assert(self.entries@.drop_last() == before);
    }

    /// The registry of the known publishers.
    pub fn known() -> (registry: PublisherRegistry)
        ensures
            registry@ == known_publishers(),
    {
        let mut registry = PublisherRegistry { entries: Vec::new() };
        registry.enter("marvel", MARVEL_URL);
        registry.enter("dc", DC_URL);
        registry.enter("image", IMAGE_URL);
        registry.enter("idw", IDW_URL);
        registry.enter("dark horse", DARK_HORSE_URL);
        registry.enter("boom", BOOM_URL);
        registry.enter("dynamite", DYNAMITE_URL);
        registry.enter("valiant", VALIANT_URL);
        registry.enter("vertigo", VERTIGO_URL);
        registry.enter("oni", ONI_URL);
        registry.enter("aftershock", AFTERSHOCK_URL);
        registry.enter("archie", ARCHIE_URL);
        registry.enter("titan", TITAN_URL);
        registry.enter("zenescope", ZENESCOPE_URL);
        registry.enter("black mask", BLACK_MASK_URL);
        registry.enter("red 5", RED_5_URL);
        registry.enter("vault", VAULT_URL);
        registry
    }

    /// The address of the listing page of the publisher `key`.
    ///
    /// The key is matched exactly, letter for letter and case for case. A key
    /// that the registry does not hold is reported as `PublisherNotFound`;
    /// no address stands in for it.
    pub fn lookup(&self, key: &str) -> (found: Result<String, ErrorKind>)
        ensures
            (match found {
                Ok(url) => self@.contains_key(key@) && url@ == self@[key@],
                Err(kind) => !self@.contains_key(key@) && kind == ErrorKind::PublisherNotFound,
            }),
    {
        let wanted = key.to_owned();
        let mut at: usize = self.entries.len();
        while at > 0
            invariant
                at <= self.entries.len(),
                wanted@ == key@,
                forall|k: int|
                    at <= k < self.entries.len() ==> (#[trigger] self.entries@[k]).key@ != key@,
            decreases at,
        {
            if self.entries[at - 1].key == wanted {
                proof {
                    lemma_entries_map(self.entries@, key@, at as int);
                }
                return Ok(self.entries[at - 1].url.clone());
            }
            at -= 1;
        }
        proof {
            lemma_entries_map(self.entries@, key@, 0);
        }
        Err(ErrorKind::PublisherNotFound)
    }
}

} // verus!
