//! The icon cache: which stored asset belongs to which source.

use vstd::prelude::*;

verus! {

/// What an [`IconDescriptor`] holds, as plain text.
pub enum DescriptorView {
    Static(Seq<char>),
    Dynamic { light: Seq<char>, dark: Seq<char>, mask: Option<Seq<char>> },
}

/// The stored result of an extraction: file names relative to the icon
/// store's root.
#[derive(Debug)]
pub enum IconDescriptor {
    /// A single image asset.
    Static(String),
    /// A pair of assets for the light and the dark theme, and an optional
    /// mask.
    Dynamic { light: String, dark: String, mask: Option<String> },
}

impl View for IconDescriptor {
    type V = DescriptorView;

    open spec fn view(&self) -> DescriptorView {
        match self {
            IconDescriptor::Static(name) => DescriptorView::Static(name@),
            IconDescriptor::Dynamic { light, dark, mask } => DescriptorView::Dynamic {
                light: light@,
                dark: dark@,
                mask: match mask {
                    Some(m) => Some(m@),
                    None => None,
                },
            },
        }
    }
}

impl Clone for IconDescriptor {
    fn clone(&self) -> (copy: Self)
        ensures
            copy@ == self@,
    {
        match self {
            IconDescriptor::Static(name) => IconDescriptor::Static(name.clone()),
            IconDescriptor::Dynamic { light, dark, mask } => {
                let mask_copy: Option<String> = match mask {
                    Some(m) => Some(m.clone()),
                    None => None,
                };
                IconDescriptor::Dynamic {
                    light: light.clone(),
                    dark: dark.clone(),
                    mask: mask_copy,
                }
            },
        }
    }
}

impl IconDescriptor {
    /// Whether two descriptors name the same assets.
    pub fn same_as(&self, other: &IconDescriptor) -> (same: bool)
        ensures
            same == (self@ == other@),
    {
        match (self, other) {
            (IconDescriptor::Static(a), IconDescriptor::Static(b)) => *a == *b,
            (
                IconDescriptor::Dynamic { light: l1, dark: d1, mask: m1 },
                IconDescriptor::Dynamic { light: l2, dark: d2, mask: m2 },
            ) => {
                let masks: bool = match (m1, m2) {
                    (Some(a), Some(b)) => *a == *b,
                    (None, None) => true,
                    _ => false,
                };
                *l1 == *l2 && *d1 == *d2 && masks
            },
            _ => false,
        }
    }
}

/// One namespace of the cache: keys that occur once each, with their
/// descriptors.
struct Table {
    keys: Vec<String>,
    values: Vec<IconDescriptor>,
    model: Ghost<Map<Seq<char>, DescriptorView>>,
}

impl Table {
    spec fn wf(&self) -> bool {
        &&& self.keys@.len() == self.values@.len()
        &&& forall|i: int|
            0 <= i < self.keys@.len() ==> self.model@.dom().contains(#[trigger] self.keys@[i]@)
                && self.model@[self.keys@[i]@] == self.values@[i]@
        &&& forall|k: Seq<char>|
            self.model@.dom().contains(k) ==> exists|i: int|
                0 <= i < self.keys@.len() && #[trigger] self.keys@[i]@ == k
        &&& forall|i: int, j: int|
            0 <= i < j < self.keys@.len() ==> #[trigger] self.keys@[i]@ != #[trigger] self.keys@[j]@
    }

    fn new() -> (table: Table)
        ensures
            table.wf(),
            table.model@ == Map::<Seq<char>, DescriptorView>::empty(),
    {
        Table { keys: Vec::new(), values: Vec::new(), model: Ghost(Map::empty()) }
    }

    /// The position of `key`, if the table holds it.
    fn position(&self, key: &String) -> (found: Option<usize>)
        requires
            self.wf(),
        ensures
            found.is_some() <==> self.model@.dom().contains(key@),
            found.is_some() ==> found.unwrap() < self.keys@.len() && self.keys@[found.unwrap() as int]@
                == key@,
    {
        let mut i: usize = 0;
        while i < self.keys.len()
            invariant
                self.wf(),
                i <= self.keys@.len(),
                forall|j: int| 0 <= j < i ==> #[trigger] self.keys@[j]@ != key@,
            decreases self.keys@.len() - i,
        {
            if self.keys[i] == *key {
                return Some(i);
            }
            i += 1;
        }
        None
    }

    fn get(&self, key: &str) -> (found: Option<&IconDescriptor>)
        requires
            self.wf(),
        ensures
            found.is_some() <==> self.model@.dom().contains(key@),
            found.is_some() ==> found.unwrap()@ == self.model@[key@],
    {
        let owned: String = key.to_owned();
        match self.position(&owned) {
            Some(i) => Some(&self.values[i]),
            None => None,
        }
    }

    fn entries(&self) -> (out: Vec<(String, IconDescriptor)>)
        requires
            self.wf(),
        ensures
            lists(out@, self.model@),
    {
        let mut out: Vec<(String, IconDescriptor)> = Vec::new();
        let mut i: usize = 0;
        while i < self.keys.len()
            invariant
                self.wf(),
                i <= self.keys@.len(),
                out@.len() == i,
                forall|j: int|
                    0 <= j < i ==> (#[trigger] out@[j]).0@ == self.keys@[j]@ && out@[j].1@
                        == self.values@[j]@,
            decreases self.keys@.len() - i,
        {
            out.push((self.keys[i].clone(), self.values[i].clone()));
            i += 1;
        }
        proof {
            assert forall|k: Seq<char>| self.model@.dom().contains(k) implies exists|i: int|
                0 <= i < out@.len() && #[trigger] out@[i].0@ == k by {
                let i = choose|i: int| 0 <= i < self.keys@.len() && #[trigger] self.keys@[i]@ == k;
                assert(out@[i].0@ == k);
            }
            assert forall|i: int, j: int| 0 <= i < j < out@.len() implies #[trigger] out@[i].0@
                != #[trigger] out@[j].0@ by {
                assert(self.keys@[i]@ != self.keys@[j]@);
            }
            assert forall|i: int| 0 <= i < out@.len() implies self.model@.dom().contains(
                #[trigger] out@[i].0@,
            ) && self.model@[out@[i].0@] == out@[i].1@ by {
                assert(self.model@.dom().contains(self.keys@[i]@));
            }
        }
        out
    }

    fn insert(&mut self, key: &str, descriptor: IconDescriptor)
        requires
            old(self).wf(),
        ensures
            final(self).wf(),
            final(self).model@ == old(self).model@.insert(key@, descriptor@),
    {
        let owned: String = key.to_owned();
        let ghost before = self.model@;
        let ghost mut at: int = 0;
        match self.position(&owned) {
            Some(i) => {
                proof {
                    at = i as int;
                }
                self.values.set(i, descriptor);
            },
            None => {
                proof {
                    at = self.keys@.len() as int;
                }
                self.keys.push(owned);
                self.values.push(descriptor);
            },
        }
        self.model = Ghost(before.insert(key@, descriptor@));
        proof {
            assert forall|k: Seq<char>| self.model@.dom().contains(k) implies exists|i: int|
                0 <= i < self.keys@.len() && #[trigger] self.keys@[i]@ == k by {
                if k == key@ {
                    assert(self.keys@[at]@ == k);
                } else {
                    let i = choose|i: int|
                        0 <= i < old(self).keys@.len() && #[trigger] old(self).keys@[i]@ == k;
                    assert(self.keys@[i]@ == k);
                }
            }
        }
    }
}

/// `entries` lists `table`: every key once, each with its descriptor.
pub open spec fn lists(
    entries: Seq<(String, IconDescriptor)>,
    table: Map<Seq<char>, DescriptorView>,
) -> bool {
    &&& forall|i: int|
        0 <= i < entries.len() ==> table.dom().contains(#[trigger] entries[i].0@) && table[entries[i].0@]
            == entries[i].1@
    &&& forall|k: Seq<char>|
        table.dom().contains(k) ==> exists|i: int|
            0 <= i < entries.len() && #[trigger] entries[i].0@ == k
    &&& forall|i: int, j: int|
        0 <= i < j < entries.len() ==> #[trigger] entries[i].0@ != #[trigger] entries[j].0@
}

/// What an [`IconCache`] holds: its two namespaces.
pub struct CacheView {
    /// Application icons, by absolute path or application identity.
    pub apps: Map<Seq<char>, DescriptorView>,
    /// File icons, by extension.
    pub files: Map<Seq<char>, DescriptorView>,
}

/// The cache of extracted icons. Application icons are kept by absolute path
/// or application identity; file icons by extension, one for all files of an
/// extension. Within a namespace a key occurs once, and a later insertion
/// replaces an earlier one.
pub struct IconCache {
    apps: Table,
    files: Table,
}

impl IconCache {
    /// The type's invariant.
    pub closed spec fn wf(&self) -> bool {
        self.apps.wf() && self.files.wf()
    }

    /// The two namespaces as maps.
    pub closed spec fn view(&self) -> CacheView {
        CacheView { apps: self.apps.model@, files: self.files.model@ }
    }

    /// An empty cache.
    pub fn new() -> (cache: IconCache)
        ensures
            cache.wf(),
            cache@.apps == Map::<Seq<char>, DescriptorView>::empty(),
            cache@.files == Map::<Seq<char>, DescriptorView>::empty(),
    {
        IconCache { apps: Table::new(), files: Table::new() }
    }

    /// The descriptor recorded for an application, if any.
    pub fn get_app_icon(&self, key: &str) -> (found: Option<&IconDescriptor>)
        requires
            self.wf(),
        ensures
            found.is_some() <==> self@.apps.dom().contains(key@),
            found.is_some() ==> found.unwrap()@ == self@.apps[key@],
    {
        self.apps.get(key)
    }

    /// The descriptor recorded for the files of an extension, if any.
    pub fn get_file_icon(&self, extension: &str) -> (found: Option<&IconDescriptor>)
        requires
            self.wf(),
        ensures
            found.is_some() <==> self@.files.dom().contains(extension@),
            found.is_some() ==> found.unwrap()@ == self@.files[extension@],
    {
        self.files.get(extension)
    }

    /// The application namespace, entry by entry, for the store to persist.
    pub fn app_entries(&self) -> (entries: Vec<(String, IconDescriptor)>)
        requires
            self.wf(),
        ensures
            lists(entries@, self@.apps),
    {
        self.apps.entries()
    }

    /// The file namespace, entry by entry, for the store to persist.
    pub fn file_entries(&self) -> (entries: Vec<(String, IconDescriptor)>)
        requires
            self.wf(),
        ensures
            lists(entries@, self@.files),
    {
        self.files.entries()
    }

    /// Records the descriptor of an application, replacing an earlier one.
    pub fn add_system_app_icon(&mut self, key: &str, descriptor: IconDescriptor)
        requires
            old(self).wf(),
        ensures
            final(self).wf(),
            final(self)@.apps == old(self)@.apps.insert(key@, descriptor@),
            final(self)@.files == old(self)@.files,
    {
        self.apps.insert(key, descriptor);
    }

    /// Records the descriptor of an extension, replacing an earlier one.
    pub fn add_system_file_icon(&mut self, extension: &str, descriptor: IconDescriptor)
        requires
            old(self).wf(),
        ensures
            final(self).wf(),
            final(self)@.files == old(self)@.files.insert(extension@, descriptor@),
            final(self)@.apps == old(self)@.apps,
    {
        self.files.insert(extension, descriptor);
    }
}

} // verus!
