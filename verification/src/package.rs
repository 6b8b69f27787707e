use vstd::prelude::*;
use crate::assoc::{lemma_pair_added, pairs_map, viewed_pairs, AssocList};

verus! {

/// The display size, in pixels, at which a package's icon is asked for.
pub const ICON_SIZE: u16 = 128;

/// Names the icon of a package: the icon theme is asked for `name` at `size`.
/// The request is resolved when the record is shown, and an icon that cannot
/// be found is no error.
#[derive(Clone, Debug)]
pub struct IconRequest {
    pub name: String,
    pub size: u16,
}

/// What an [`IconRequest`] stands for.
pub struct IconRequestView {
    pub name: Seq<char>,
    pub size: u16,
}

impl View for IconRequest {
    type V = IconRequestView;

    open spec fn view(&self) -> IconRequestView {
        IconRequestView { name: self.name@, size: self.size }
    }
}

/// Backend-specific attributes of a package, from string keys to string
/// values.
#[derive(Debug)]
pub struct Extra {
    entries: AssocList<String, String>,
}

impl View for Extra {
    type V = Map<Seq<char>, Seq<char>>;

    closed spec fn view(&self) -> Map<Seq<char>, Seq<char>> {
        self.entries@.map_values(|value: String| value@)
    }
}

impl Clone for Extra {
    fn clone(&self) -> (copy: Extra)
        ensures
            copy@ == self@,
    {
        let entries = self.entries.entries();
        let mut copy: AssocList<String, String> = AssocList::new();
        let mut i: usize = 0;
        proof {
            assert(viewed_pairs(entries@.take(0)) =~= Seq::<(Seq<char>, String)>::empty());
        }
        while i < entries.len()
            invariant
                i <= entries@.len(),
                copy@ == pairs_map(viewed_pairs(entries@.take(i as int))),
            decreases entries.len() - i,
        {
            let key = entries[i].0.clone();
            let value = entries[i].1.clone();
            proof {
                lemma_pair_added(viewed_pairs(entries@.take(i as int)), (key@, value));
                assert(viewed_pairs(entries@.take(i + 1)) =~= viewed_pairs(
                    entries@.take(i as int),
                ).push((key@, value)));
            }
            copy.insert(key, value);
            i = i + 1;
        }
        proof {
            assert(entries@.take(i as int) =~= entries@);
        }
        Extra { entries: copy }
    }
}

impl Extra {
    /// A mapping without keys.
    pub fn new() -> (extra: Extra)
        ensures
            extra@ == Map::<Seq<char>, Seq<char>>::empty(),
    {
        let extra = Extra { entries: AssocList::new() };
        proof {
            assert(extra@ =~= Map::<Seq<char>, Seq<char>>::empty());
        }
        extra
    }

    /// Maps `key` to `value`, in place of what `key` was mapped to before.
    pub fn insert(&mut self, key: String, value: String)
        ensures
            final(self)@ == old(self)@.insert(key@, value@),
    {
        let ghost inserted = (key@, value@);
        self.entries.insert(key, value);
        proof {
            assert(self@ =~= old(self)@.insert(inserted.0, inserted.1));
        }
    }

    /// The value that `key` is mapped to, if there is one.
    pub fn get(&self, key: &str) -> (value: Option<&String>)
        ensures
            self@.contains_key(key@) == value.is_some(),
            value matches Some(v) ==> v@ == self@[key@],
    {
        let wanted = key.to_owned();
        self.entries.get(&wanted)
    }

    /// The number of keys.
    pub fn len(&self) -> (n: usize)
        ensures
            self@.dom().finite(),
            n == self@.dom().len(),
    {
        proof {
            assert(self@.dom() =~= self.entries@.dom());
        }
        self.entries.len()
    }

    /// Whether there is no key.
    pub fn is_empty(&self) -> (empty: bool)
        ensures
            empty == (self@ == Map::<Seq<char>, Seq<char>>::empty()),
    {
        let n = self.entries.len();
        proof {
            assert(self@.dom() =~= self.entries@.dom());
            if n == 0 {
                assert(self@ =~= Map::<Seq<char>, Seq<char>>::empty());
            }
        }
        n == 0
    }
}

/// One installed application, as every backend describes it.
#[derive(Clone, Debug)]
pub struct Package {
    /// Identifies the package within the backend that produced it.
    pub id: String,
    /// The icon to show for the package.
    pub icon: IconRequest,
    /// The name to display.
    pub name: String,
    /// A one-line description; empty where the source has none.
    pub summary: String,
    /// The installed version; empty where the source has none.
    pub version: String,
    /// What the backend needs to find the same installed unit again.
    pub extra: Extra,
}

/// What a [`Package`] stands for.
pub struct PackageView {
    pub id: Seq<char>,
    pub icon: IconRequestView,
    pub name: Seq<char>,
    pub summary: Seq<char>,
    pub version: Seq<char>,
    pub extra: Map<Seq<char>, Seq<char>>,
}

impl View for Package {
    type V = PackageView;

    open spec fn view(&self) -> PackageView {
        PackageView {
            id: self.id@,
            icon: self.icon@,
            name: self.name@,
            summary: self.summary@,
            version: self.version@,
            extra: self.extra@,
        }
    }
}

} // verus!
