use vstd::prelude::*;

use crate::resolve::{unresolved_import_message, unresolved_message};

verus! {

/// What the import hook does with a specifier once the file system has said
/// which file it names.
pub enum ImportDecision<'a, M> {
    /// The file's module is in the cache: hand it back.
    Cached(&'a M),
    /// Read, compile and store the file at this canonical path.
    Load(String),
    /// Fail instantiation with this exception text.
    Fail(String),
}

/// The canonical file an import names: the plain resolution when the file
/// exists, else the one with `.js` appended.
pub open spec fn chosen_file(plain: Option<String>, with_js: Option<String>) -> Option<String> {
    match plain {
        Some(p) => Some(p),
        None => with_js,
    }
}

/// A compiled module stored under its canonical path.
pub struct ModuleSlot<M> {
    pub path: String,
    pub module: M,
}

/// The path that produced the module with a given structural identity.
pub struct IdentitySlot {
    pub identity: i32,
    pub path: String,
}

/// The compiled modules after the stores of `stores`, in order, as
/// `store_module` states each.
pub open spec fn store_all<M>(modules: Map<Seq<char>, M>, stores: Seq<(Seq<char>, M)>) -> Map<Seq<char>, M>
    decreases stores.len(),
{
    if stores.len() == 0 {
        modules
    } else {
        store_all(modules.insert(stores[0].0, stores[0].1), stores.subrange(1, stores.len() as int))
    }
}

/// One compilation per canonical path: once the module compiled from a path
/// is stored, every later import that resolves to that path finds that same
/// module in the cache, whatever other paths are stored in between. Callers
/// only compile and store a path that the cache does not hold yet.
pub proof fn lemma_same_path_same_module<M>(
    modules: Map<Seq<char>, M>,
    path: Seq<char>,
    module: M,
    later: Seq<(Seq<char>, M)>,
)
    requires
        forall|i: int| 0 <= i < later.len() ==> (#[trigger] later[i]).0 != path,
    ensures
        store_all(modules.insert(path, module), later).contains_key(path),
        store_all(modules.insert(path, module), later)[path] == module,
    decreases later.len(),
{
    if later.len() > 0 {
        let rest = later.subrange(1, later.len() as int);
        assert forall|i: int| 0 <= i < rest.len() implies (#[trigger] rest[i]).0 != path by {
            assert(rest[i] == later[i + 1]);
        }
        assert(later[0].0 != path);
        let next = modules.insert(path, module).insert(later[0].0, later[0].1);
        assert(next == modules.insert(later[0].0, later[0].1).insert(path, module));
        lemma_same_path_same_module(modules.insert(later[0].0, later[0].1), path, module, rest);
    }
}

/// The module cache: canonical path to compiled module, and the structural
/// identity of each compiled module to the path it came from.
pub struct FsModuleLoader<M> {
    modules: Vec<ModuleSlot<M>>,
    paths: Vec<IdentitySlot>,
    module_view: Ghost<Map<Seq<char>, M>>,
    path_view: Ghost<Map<i32, Seq<char>>>,
}

impl<M> FsModuleLoader<M> {
    /// The compiled modules, by canonical path.
    pub closed spec fn modules(&self) -> Map<Seq<char>, M> {
        self.module_view@
    }

    /// The canonical paths, by structural identity.
    pub closed spec fn paths(&self) -> Map<i32, Seq<char>> {
        self.path_view@
    }

    pub closed spec fn wf(&self) -> bool {
        self.modules_wf() && self.paths_wf()
    }

    closed spec fn modules_wf(&self) -> bool {
        &&& forall|i: int| 0 <= i < self.modules@.len() ==> {
            &&& #[trigger] self.module_view@.contains_key(self.modules@[i].path@)
            &&& self.module_view@[self.modules@[i].path@] == self.modules@[i].module
        }
        &&& forall|p: Seq<char>| #[trigger] self.module_view@.contains_key(p) ==> exists|i: int|
            0 <= i < self.modules@.len() && #[trigger] self.modules@[i].path@ == p
        &&& forall|i: int, j: int|
            0 <= i < self.modules@.len() && 0 <= j < self.modules@.len() && i != j
                ==> self.modules@[i].path@ != self.modules@[j].path@
    }

    closed spec fn paths_wf(&self) -> bool {
        &&& forall|i: int| 0 <= i < self.paths@.len() ==> {
            &&& #[trigger] self.path_view@.contains_key(self.paths@[i].identity)
            &&& self.path_view@[self.paths@[i].identity] == self.paths@[i].path@
        }
        &&& forall|h: i32| #[trigger] self.path_view@.contains_key(h) ==> exists|i: int|
            0 <= i < self.paths@.len() && #[trigger] self.paths@[i].identity == h
        &&& forall|i: int, j: int|
            0 <= i < self.paths@.len() && 0 <= j < self.paths@.len() && i != j
                ==> self.paths@[i].identity != self.paths@[j].identity
    }

    pub fn new() -> (r: FsModuleLoader<M>)
        ensures
            r.wf(),
            r.modules() == Map::<Seq<char>, M>::empty(),
            r.paths() == Map::<i32, Seq<char>>::empty(),
    {
        FsModuleLoader {
            modules: Vec::new(),
            paths: Vec::new(),
            module_view: Ghost(Map::empty()),
            path_view: Ghost(Map::empty()),
        }
    }

    fn find_module(&self, path: &String) -> (r: Option<usize>)
        ensures
            match r {
                Some(i) => i < self.modules@.len() && self.modules@[i as int].path@ == path@,
                None => forall|i: int| 0 <= i < self.modules@.len() ==> self.modules@[i].path@ != path@,
            },
    {
        let mut i: usize = 0;
        while i < self.modules.len()
            invariant
                i <= self.modules@.len(),
                forall|j: int| 0 <= j < i ==> self.modules@[j].path@ != path@,
            decreases self.modules@.len() - i,
        {
            if self.modules[i].path == *path {
                return Some(i);
            }
            i += 1;
        }
        None
    }

    fn find_identity(&self, identity: i32) -> (r: Option<usize>)
        ensures
            match r {
                Some(i) => i < self.paths@.len() && self.paths@[i as int].identity == identity,
                None => forall|i: int| 0 <= i < self.paths@.len() ==> self.paths@[i].identity != identity,
            },
    {
        let mut i: usize = 0;
        while i < self.paths.len()
            invariant
                i <= self.paths@.len(),
                forall|j: int| 0 <= j < i ==> self.paths@[j].identity != identity,
            decreases self.paths@.len() - i,
        {
            if self.paths[i].identity == identity {
                return Some(i);
            }
            i += 1;
        }
        None
    }

    /// Records `module` under `path`, and `path` under the module's identity.
    pub fn store_module(&mut self, path: String, module: M, identity_hash: i32)
        requires
            old(self).wf(),
        ensures
            final(self).wf(),
            final(self).modules() == old(self).modules().insert(path@, module),
            final(self).paths() == old(self).paths().insert(identity_hash, path@),
    {
        let ghost p = path@;
        let ghost m = module;
        let copy = path.clone();
        match self.find_identity(identity_hash) {
            Some(i) => {
                let ghost before = self.paths@;
                self.paths.set(i, IdentitySlot { identity: identity_hash, path: copy });
                self.path_view = Ghost(self.path_view@.insert(identity_hash, p));
                proof {
                    assert forall|h: i32| #[trigger] self.path_view@.contains_key(h) implies exists|k: int|
                        0 <= k < self.paths@.len() && #[trigger] self.paths@[k].identity == h by {
                        if h == identity_hash {
                            assert(self.paths@[i as int].identity == h);
                        } else {
                            let k = choose|k: int| 0 <= k < before.len() && #[trigger] before[k].identity == h;
                            assert(self.paths@[k].identity == h);
                        }
                    }
                }
            },
            None => {
                let ghost before = self.paths@;
                self.paths.push(IdentitySlot { identity: identity_hash, path: copy });
                self.path_view = Ghost(self.path_view@.insert(identity_hash, p));
                proof {
                    assert forall|h: i32| #[trigger] self.path_view@.contains_key(h) implies exists|k: int|
                        0 <= k < self.paths@.len() && #[trigger] self.paths@[k].identity == h by {
                        if h == identity_hash {
                            assert(self.paths@[before.len() as int].identity == h);
                        } else {
                            let k = choose|k: int| 0 <= k < before.len() && #[trigger] before[k].identity == h;
                            assert(self.paths@[k].identity == h);
                        }
                    }
                }
            },
        }
        assert(self.paths_wf());
        let ghost table = self.paths@;
        let ghost table_view = self.path_view@;
        match self.find_module(&path) {
            Some(i) => {
                let ghost before = self.modules@;
                self.modules.set(i, ModuleSlot { path, module });
                self.module_view = Ghost(self.module_view@.insert(p, m));
                proof {
                    assert forall|j: int| 0 <= j < self.modules@.len() implies {
                        &&& #[trigger] self.module_view@.contains_key(self.modules@[j].path@)
                        &&& self.module_view@[self.modules@[j].path@] == self.modules@[j].module
                    } by {
                        if j != i {
                            assert(before[j] == self.modules@[j]);
                            assert(before[j].path@ != before[i as int].path@);
                        }
                    }
                    assert forall|a: int, b: int|
                        0 <= a < self.modules@.len() && 0 <= b < self.modules@.len() && a != b
                            implies self.modules@[a].path@ != self.modules@[b].path@ by {
                        assert(self.modules@[a].path@ == before[a].path@);
                        assert(self.modules@[b].path@ == before[b].path@);
                    }
                    assert forall|k: Seq<char>| #[trigger] self.module_view@.contains_key(k) implies exists|j: int|
                        0 <= j < self.modules@.len() && #[trigger] self.modules@[j].path@ == k by {
                        if k == p {
                            assert(self.modules@[i as int].path@ == k);
                        } else {
                            let j = choose|j: int| 0 <= j < before.len() && #[trigger] before[j].path@ == k;
                            assert(self.modules@[j].path@ == k);
                        }
                    }
                }
            },
            None => {
                let ghost before = self.modules@;
                let ghost old_view = self.module_view@;
                self.modules.push(ModuleSlot { path, module });
                self.module_view = Ghost(self.module_view@.insert(p, m));
                proof {
                    assert forall|j: int| 0 <= j < self.modules@.len() implies {
                        &&& #[trigger] self.module_view@.contains_key(self.modules@[j].path@)
                        &&& self.module_view@[self.modules@[j].path@] == self.modules@[j].module
                    } by {
                        if j < before.len() {
                            assert(before[j] == self.modules@[j]);
                            assert(old_view.contains_key(before[j].path@));
                            assert(before[j].path@ != p);
                        }
                    }
                    assert forall|a: int, b: int|
                        0 <= a < self.modules@.len() && 0 <= b < self.modules@.len() && a != b
                            implies self.modules@[a].path@ != self.modules@[b].path@ by {
                        if a < before.len() { assert(self.modules@[a] == before[a]); }
                        if b < before.len() { assert(self.modules@[b] == before[b]); }
                    }
                    assert forall|k: Seq<char>| #[trigger] self.module_view@.contains_key(k) implies exists|j: int|
                        0 <= j < self.modules@.len() && #[trigger] self.modules@[j].path@ == k by {
                        if k == p {
                            assert(self.modules@[before.len() as int].path@ == k);
                        } else {
                            let j = choose|j: int| 0 <= j < before.len() && #[trigger] before[j].path@ == k;
                            assert(self.modules@[j].path@ == k);
                        }
                    }
                }
            },
        }
        assert(self.paths@ == table && self.path_view@ == table_view);
        assert(self.modules_wf());
        assert(self.paths_wf());
    }

    /// Decides an import of `specifier`, given the canonical path of the file
    /// it names (`plain`) and, when that file does not exist, of the file with
    /// `.js` appended (`with_js`). A path in the cache is never loaded again.
    pub fn decide_import<'a>(
        &'a self,
        specifier: &str,
        plain: Option<String>,
        with_js: Option<String>,
    ) -> (r: ImportDecision<'a, M>)
        requires
            self.wf(),
        ensures
            match chosen_file(plain, with_js) {
                None => match r {
                    ImportDecision::Fail(msg) => msg@ == unresolved_message(specifier@),
                    _ => false,
                },
                Some(p) => if self.modules().contains_key(p@) {
                    match r {
                        ImportDecision::Cached(m) => *m == self.modules()[p@],
                        _ => false,
                    }
                } else {
                    match r {
                        ImportDecision::Load(path) => path == p,
                        _ => false,
                    }
                },
            },
    {
        let file = match plain {
            Some(p) => p,
            None => match with_js {
                Some(p) => p,
                None => return ImportDecision::Fail(unresolved_import_message(specifier)),
            },
        };
        match self.get_module(file.as_str()) {
            Some(m) => ImportDecision::Cached(m),
            None => ImportDecision::Load(file),
        }
    }

    /// The module compiled from `path`, if any.
    pub fn get_module(&self, path: &str) -> (r: Option<&M>)
        requires
            self.wf(),
        ensures
            match r {
                Some(m) => self.modules().contains_key(path@) && *m == self.modules()[path@],
                None => !self.modules().contains_key(path@),
            },
    {
        let key = path.to_owned();
        match self.find_module(&key) {
            Some(i) => {
                proof {
                    assert(self.module_view@.contains_key(self.modules@[i as int].path@));
                }
                Some(&self.modules[i].module)
            },
            None => None,
        }
    }

    /// The path that produced the module with structural identity `hash`, if any.
    pub fn get_path_by_hash(&self, hash: i32) -> (r: Option<&String>)
        requires
            self.wf(),
        ensures
            match r {
                Some(p) => self.paths().contains_key(hash) && p@ == self.paths()[hash],
                None => !self.paths().contains_key(hash),
            },
    {
        match self.find_identity(hash) {
            Some(i) => {
                proof {
                    assert(self.path_view@.contains_key(self.paths@[i as int].identity));
                }
                Some(&self.paths[i].path)
            },
            None => None,
        }
    }
}

} // verus!
