//! The relay server's settings and the choice of the cache configuration
//! named `kind:name` on the command line.

use vstd::prelude::*;

verus! {

pub struct Runtime {
    /// Worker threads; `None` leaves the choice to the runtime.
    pub threads: Option<usize>,
}

pub struct Ingester {
    pub addr: String,
}

pub struct Transmitter {
    pub addr: String,
}

pub struct StaticCache {
    pub name: String,
    pub file_path: String,
    pub shards: u64,
    pub streams: u64,
    pub tracks: u64,
    pub segments: u64,
}

pub struct MapCache {
    pub name: String,
    /// Initial capacity of the growing buffer of a segment.
    pub preallocate: usize,
}

pub struct ListCache {
    pub name: String,
    /// Store private copies of the received chunks.
    pub copy: bool,
}

/// The named cache configurations of each kind.
pub struct Cache {
    pub map: Vec<MapCache>,
    pub list: Vec<ListCache>,
    pub statics: Vec<StaticCache>,
}

pub struct Setting {
    pub runtime: Runtime,
    pub ingester: Ingester,
    pub transmitter: Transmitter,
    pub cache: Cache,
}

/// The configuration a `kind:name` selector picks.
pub enum CacheConfig {
    NotFound,
    Static(StaticCache),
    Coalescing(MapCache),
    List(ListCache),
}

/// `k` is the one colon of `s`.
pub open spec fn sole_colon(s: Seq<char>, k: int) -> bool {
    &&& 0 <= k < s.len()
    &&& s[k] == ':'
    &&& forall|i: int| 0 <= i < s.len() && i != k ==> s[i] != ':'
}

/// `i` is the first position in `names` that holds `name`, or -1 if none does.
pub open spec fn first_named(names: Seq<Seq<char>>, name: Seq<char>, i: int) -> bool {
    if i == -1 {
        forall|j: int| 0 <= j < names.len() ==> names[j] != name
    } else {
        0 <= i < names.len() && names[i] == name && forall|j: int| 0 <= j < i ==> names[j] != name
    }
}

impl Cache {
    pub open spec fn map_names(&self) -> Seq<Seq<char>> {
        self.map@.map_values(|c: MapCache| c.name@)
    }

    pub open spec fn list_names(&self) -> Seq<Seq<char>> {
        self.list@.map_values(|c: ListCache| c.name@)
    }

    pub open spec fn static_names(&self) -> Seq<Seq<char>> {
        self.statics@.map_values(|c: StaticCache| c.name@)
    }

    /// The result of selecting configuration `name` of kind `kind`.
    pub open spec fn selects(&self, kind: Seq<char>, name: Seq<char>, r: CacheConfig) -> bool {
        if kind == "static"@ {
            exists|i: int|
                #[trigger] first_named(self.static_names(), name, i) && if i == -1 {
                    r is NotFound
                } else {
                    r matches CacheConfig::Static(c) && c.name@ == name && c.file_path@
                        == self.statics@[i].file_path@ && c.shards == self.statics@[i].shards
                        && c.streams == self.statics@[i].streams && c.tracks
                        == self.statics@[i].tracks && c.segments == self.statics@[i].segments
                }
        } else if kind == "list"@ {
            exists|i: int|
                #[trigger] first_named(self.list_names(), name, i) && if i == -1 {
                    r is NotFound
                } else {
                    r matches CacheConfig::List(c) && c.name@ == name && c.copy
                        == self.list@[i].copy
                }
        } else if kind == "map"@ {
            exists|i: int|
                #[trigger] first_named(self.map_names(), name, i) && if i == -1 {
                    r is NotFound
                } else {
                    r matches CacheConfig::Coalescing(c) && c.name@ == name && c.preallocate
                        == self.map@[i].preallocate
                }
        } else {
            r is NotFound
        }
    }

    fn find_map(&self, name: &String) -> (r: CacheConfig)
        ensures
            self.selects("map"@, name@, r),
    {
        proof {
            reveal_strlit("static");
            reveal_strlit("list");
            reveal_strlit("map");
            assert("map"@.len() == 3 && "list"@.len() == 4 && "static"@.len() == 6);
        }
        let mut i: usize = 0;
        while i < self.map.len()
            invariant
                i <= self.map@.len(),
                forall|j: int| 0 <= j < i ==> self.map_names()[j] != name@,
            decreases self.map@.len() - i,
        {
            if self.map[i].name == *name {
                let c = MapCache { name: self.map[i].name.clone(), preallocate: self.map[i].preallocate };
                assert(first_named(self.map_names(), name@, i as int));
                proof {
                    reveal_strlit("static");
                    reveal_strlit("list");
                    reveal_strlit("map");
                    assert("map"@.len() == 3 && "list"@.len() == 4 && "static"@.len() == 6);
                }
                let r = CacheConfig::Coalescing(c);
                return r;
            }
            i = i + 1;
        }
        assert(first_named(self.map_names(), name@, -1));
        CacheConfig::NotFound
    }

    fn find_list(&self, name: &String) -> (r: CacheConfig)
        ensures
            self.selects("list"@, name@, r),
    {
        proof {
            reveal_strlit("static");
            reveal_strlit("list");
            reveal_strlit("map");
            assert("map"@.len() == 3 && "list"@.len() == 4 && "static"@.len() == 6);
        }
        let mut i: usize = 0;
        while i < self.list.len()
            invariant
                i <= self.list@.len(),
                forall|j: int| 0 <= j < i ==> self.list_names()[j] != name@,
            decreases self.list@.len() - i,
        {
            if self.list[i].name == *name {
                let c = ListCache { name: self.list[i].name.clone(), copy: self.list[i].copy };
                assert(first_named(self.list_names(), name@, i as int));
                proof {
                    reveal_strlit("static");
                    reveal_strlit("list");
                    reveal_strlit("map");
                    assert("map"@.len() == 3 && "list"@.len() == 4 && "static"@.len() == 6);
                }
                return CacheConfig::List(c);
            }
            i = i + 1;
        }
        assert(first_named(self.list_names(), name@, -1));
        CacheConfig::NotFound
    }

    fn find_static(&self, name: &String) -> (r: CacheConfig)
        ensures
            self.selects("static"@, name@, r),
    {
        proof {
            reveal_strlit("static");
            reveal_strlit("list");
            reveal_strlit("map");
            assert("map"@.len() == 3 && "list"@.len() == 4 && "static"@.len() == 6);
        }
        let mut i: usize = 0;
        while i < self.statics.len()
            invariant
                i <= self.statics@.len(),
                forall|j: int| 0 <= j < i ==> self.static_names()[j] != name@,
            decreases self.statics@.len() - i,
        {
            if self.statics[i].name == *name {
                let s = &self.statics[i];
                let c = StaticCache {
                    name: s.name.clone(),
                    file_path: s.file_path.clone(),
                    shards: s.shards,
                    streams: s.streams,
                    tracks: s.tracks,
                    segments: s.segments,
                };
                assert(first_named(self.static_names(), name@, i as int));
                proof {
                    reveal_strlit("static");
                    reveal_strlit("list");
                    reveal_strlit("map");
                    assert("map"@.len() == 3 && "list"@.len() == 4 && "static"@.len() == 6);
                }
                return CacheConfig::Static(c);
            }
            i = i + 1;
        }
        assert(first_named(self.static_names(), name@, -1));
        CacheConfig::NotFound
    }

    /// The configuration that `selector`, written `kind:name`, names.
    pub fn config(&self, selector: &str) -> (r: CacheConfig)
        ensures
            forall|k: int|
                sole_colon(selector@, k) ==> self.selects(
                    selector@.take(k),
                    selector@.skip(k + 1),
                    r,
                ),
            (forall|k: int| !sole_colon(selector@, k)) ==> r is NotFound,
    {
        let n = selector.unicode_len();
        let mut colons: usize = 0;
        let mut at: usize = 0;
        let mut i: usize = 0;
        while i < n
            invariant
                i <= n,
                n == selector@.len(),
                colons <= i,
                colons == 0 ==> forall|j: int| 0 <= j < i ==> selector@[j] != ':',
                colons >= 1 ==> at < i && selector@[at as int] == ':',
                colons == 1 ==> forall|j: int| 0 <= j < i && j != at ==> selector@[j] != ':',
                colons >= 2 ==> exists|j: int| 0 <= j < i && j != at && selector@[j] == ':',
            decreases n - i,
        {
            if selector.get_char(i) == ':' {
                if colons == 0 {
                    at = i;
                }
                colons = colons + 1;
            }
            i = i + 1;
        }
        if colons != 1 {
            return CacheConfig::NotFound;
        }
        assert(sole_colon(selector@, at as int));
        assert forall|k: int| sole_colon(selector@, k) implies k == at by {}
        let kind = selector.substring_char(0, at).to_owned();
        let name = selector.substring_char(at + 1, n).to_owned();
        assert(kind@ =~= selector@.take(at as int));
        assert(name@ =~= selector@.skip(at + 1));
        proof {
            reveal_strlit("static");
            reveal_strlit("list");
            reveal_strlit("map");
            assert("map"@.len() == 3 && "list"@.len() == 4 && "static"@.len() == 6);
        }
        if kind == "static".to_owned() {
            self.find_static(&name)
        } else if kind == "list".to_owned() {
            self.find_list(&name)
        } else if kind == "map".to_owned() {
            self.find_map(&name)
        } else {
            CacheConfig::NotFound
        }
    }
}

/// A listen address whose host was left out (`:8080`) listens on all interfaces.
pub fn expand_address(addr: &str) -> (r: String)
    ensures
        r@ == if addr@.len() > 0 && addr@[0] == ':' {
            "0.0.0.0"@ + addr@
        } else {
            addr@
        },
{
    if addr.unicode_len() > 0 && addr.get_char(0) == ':' {
        let mut full = "0.0.0.0".to_owned();
        full.append(addr);
        full
    } else {
        addr.to_owned()
    }
}

} // verus!
