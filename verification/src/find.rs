//! Locating `librkllmrt.so` on disk.
//!
//! Paths are the bytes that Linux takes them for. What the environment and the
//! file system have to say is handed in.
use vstd::prelude::*;
use vstd::slice::slice_to_vec;
use vstd::string::StringSliceAdditionalSpecFns;

verus! {

/// The name of the runtime's shared object.
pub const LIBRARY_NAME: &'static str = "librkllmrt.so";

/// The byte that separates the parts of a path.
pub const SEPARATOR: u8 = 47;

/// The byte that separates the paths of a list.
pub const LIST_SEPARATOR: u8 = 58;

/// The path that `part` leads to from `base`: `part` itself where it is
/// absolute, and otherwise `base` with `part` behind a separator, of which one is
/// enough.
pub open spec fn joined(base: Seq<u8>, part: Seq<u8>) -> Seq<u8> {
    if part.len() > 0 && part[0] == SEPARATOR {
        part
    } else if base.len() == 0 || base.last() == SEPARATOR {
        base + part
    } else {
        base.push(SEPARATOR) + part
    }
}

/// The path that `part` leads to from `base`.
fn join(base: &[u8], part: &[u8]) -> (r: Vec<u8>)
    ensures
        r@ == joined(base@, part@),
{
    let mut path: Vec<u8> = Vec::new();
    if !(part.len() > 0 && part[0] == SEPARATOR) {
        path.extend_from_slice(base);
        assert(path@ =~= base@);
        if base.len() > 0 && base[base.len() - 1] != SEPARATOR {
            path.push(SEPARATOR);
        }
    }
    let ghost before = path@;
    path.extend_from_slice(part);
    assert(path@ =~= before + part@);
    assert(path@ =~= joined(base@, part@));
    path
}

/// The library inside the directory `dir`.
pub open spec fn library_in(dir: Seq<u8>) -> Seq<u8> {
    joined(dir, LIBRARY_NAME.spec_bytes())
}

/// The library inside the directory `dir`.
fn library_path(dir: &[u8]) -> (r: Vec<u8>)
    ensures
        r@ == library_in(dir@),
{
    join(dir, LIBRARY_NAME.as_bytes())
}

/// What lies between the separators of a list, in order. Two separators in a row
/// have an empty piece between them, so there is always one piece more than there
/// are separators.
pub open spec fn split(list: Seq<u8>, separator: u8) -> Seq<Seq<u8>>
    decreases list.len(),
{
    if list.len() == 0 {
        seq![Seq::empty()]
    } else if list.last() == separator {
        split(list.drop_last(), separator).push(Seq::empty())
    } else {
        let pieces = split(list.drop_last(), separator);
        pieces.drop_last().push(pieces.last().push(list.last()))
    }
}

/// What each path of `paths` holds.
pub open spec fn contents(paths: Seq<Vec<u8>>) -> Seq<Seq<u8>> {
    paths.map_values(|path: Vec<u8>| path@)
}

/// The library inside each directory of a list, in order.
pub open spec fn libraries_in(dirs: Seq<Seq<u8>>) -> Seq<Seq<u8>> {
    dirs.map_values(|dir: Seq<u8>| library_in(dir))
}

/// What lies between the separators of a list, in order.
fn split_at(list: &[u8], separator: u8) -> (r: Vec<Vec<u8>>)
    ensures
        contents(r@) == split(list@, separator),
{
    let mut done: Vec<Vec<u8>> = Vec::new();
    let mut current: Vec<u8> = Vec::new();
    let mut i: usize = 0;
    assert(list@.take(0) =~= Seq::<u8>::empty());
    assert(contents(done@).push(current@) =~= split(list@.take(0), separator));
    while i < list.len()
        invariant
            i <= list.len(),
            contents(done@).push(current@) == split(list@.take(i as int), separator),
        decreases list.len() - i,
    {
        let ghost pieces = split(list@.take(i as int), separator);
        let ghost prefix = list@.take(i + 1);
        assert(prefix.drop_last() =~= list@.take(i as int));
        assert(prefix.last() == list@[i as int]);
        assert(pieces.drop_last() =~= contents(done@));
        assert(pieces.last() == current@);
        if list[i] == separator {
            done.push(current);
            current = Vec::new();
            assert(contents(done@) =~= pieces);
            assert(split(prefix, separator) == pieces.push(Seq::empty()));
        } else {
            current.push(list[i]);
            assert(split(prefix, separator) == pieces.drop_last().push(
                pieces.last().push(prefix.last()),
            ));
        }
        assert(contents(done@).push(current@) =~= split(prefix, separator));
        i += 1;
    }
    assert(list@.take(i as int) =~= list@);
    let ghost pieces = split(list@, separator);
    done.push(current);
    assert(contents(done@) =~= pieces);
    done
}

/// Whether two byte strings are the same.
fn same_bytes(a: &[u8], b: &[u8]) -> (r: bool)
    ensures
        r == (a@ == b@),
{
    if a.len() != b.len() {
        return false;
    }
    let mut i: usize = 0;
    while i < a.len()
        invariant
            i <= a.len(),
            a.len() == b.len(),
            forall|j: int| 0 <= j < i ==> a@[j] == b@[j],
        decreases a.len() - i,
    {
        if a[i] != b[i] {
            return false;
        }
        i += 1;
    }
    assert(a@ =~= b@);
    true
}

/// Whether a piece of a path leads anywhere: it is neither empty nor a lone dot.
pub open spec fn leads_on(piece: Seq<u8>) -> bool {
    piece.len() > 0 && piece != ".".spec_bytes()
}

/// The pieces that lead anywhere, in order.
pub open spec fn leading(pieces: Seq<Seq<u8>>) -> Seq<Seq<u8>>
    decreases pieces.len(),
{
    if pieces.len() == 0 {
        Seq::empty()
    } else if leads_on(pieces.last()) {
        leading(pieces.drop_last()).push(pieces.last())
    } else {
        leading(pieces.drop_last())
    }
}

/// Whether a path starts at the root.
pub open spec fn is_rooted(path: Seq<u8>) -> bool {
    path.len() > 0 && path[0] == SEPARATOR
}

/// Whether a path starts with a lone dot.
pub open spec fn is_dotted(path: Seq<u8>) -> bool {
    split(path, SEPARATOR)[0] == ".".spec_bytes()
}

/// Whether two paths are the same, component by component: repeated separators,
/// one at the end, and dots make no difference, but for a dot at the start.
pub open spec fn same_path(a: Seq<u8>, b: Seq<u8>) -> bool {
    &&& is_rooted(a) == is_rooted(b)
    &&& is_dotted(a) == is_dotted(b)
    &&& leading(split(a, SEPARATOR)) == leading(split(b, SEPARATOR))
}

/// The pieces that lead anywhere, in order.
fn leading_pieces(pieces: &Vec<Vec<u8>>) -> (r: Vec<Vec<u8>>)
    ensures
        contents(r@) == leading(contents(pieces@)),
{
    let mut out: Vec<Vec<u8>> = Vec::new();
    let mut i: usize = 0;
    assert(contents(pieces@).take(0) =~= Seq::empty());
    assert(contents(out@) =~= Seq::empty());
    while i < pieces.len()
        invariant
            i <= pieces.len(),
            contents(out@) == leading(contents(pieces@).take(i as int)),
        decreases pieces.len() - i,
    {
        let ghost next = contents(pieces@).take(i + 1);
        assert(next.drop_last() =~= contents(pieces@).take(i as int));
        assert(next.last() == pieces@[i as int]@);
        if pieces[i].len() > 0 && !same_bytes(pieces[i].as_slice(), ".".as_bytes()) {
            add_path(&mut out, slice_to_vec(pieces[i].as_slice()));
            assert(contents(out@) =~= leading(next));
        }
        i += 1;
    }
    assert(contents(pieces@).take(i as int) =~= contents(pieces@));
    out
}

/// Whether two lists hold the same pieces.
fn same_pieces(a: &Vec<Vec<u8>>, b: &Vec<Vec<u8>>) -> (r: bool)
    ensures
        r == (contents(a@) == contents(b@)),
{
    if a.len() != b.len() {
        assert(contents(a@).len() != contents(b@).len());
        return false;
    }
    let mut i: usize = 0;
    while i < a.len()
        invariant
            i <= a.len(),
            a.len() == b.len(),
            forall|j: int| 0 <= j < i ==> a@[j]@ == b@[j]@,
        decreases a.len() - i,
    {
        if !same_bytes(a[i].as_slice(), b[i].as_slice()) {
            assert(contents(a@)[i as int] != contents(b@)[i as int]);
            return false;
        }
        i += 1;
    }
    assert(contents(a@) =~= contents(b@));
    true
}

/// A list has a piece before its first separator.
proof fn a_list_has_a_piece(list: Seq<u8>, separator: u8)
    ensures
        split(list, separator).len() > 0,
    decreases list.len(),
{
    if list.len() > 0 {
        a_list_has_a_piece(list.drop_last(), separator);
    }
}

/// Whether two paths are the same, component by component.
fn is_same_path(a: &[u8], b: &[u8]) -> (r: bool)
    ensures
        r == same_path(a@, b@),
{
    let first: Vec<Vec<u8>> = split_at(a, SEPARATOR);
    let second: Vec<Vec<u8>> = split_at(b, SEPARATOR);
    proof {
        a_list_has_a_piece(a@, SEPARATOR);
        a_list_has_a_piece(b@, SEPARATOR);
    }
    assert(first@.len() == contents(first@).len() && second@.len() == contents(second@).len());
    assert(contents(first@)[0] == first@[0]@ && contents(second@)[0] == second@[0]@);
    let rooted_alike: bool = (a.len() > 0 && a[0] == SEPARATOR) == (b.len() > 0 && b[0]
        == SEPARATOR);
    let dotted_alike: bool = same_bytes(first[0].as_slice(), ".".as_bytes()) == same_bytes(
        second[0].as_slice(),
        ".".as_bytes(),
    );
    rooted_alike && dotted_alike && same_pieces(&leading_pieces(&first), &leading_pieces(&second))
}

/// The multiarch directory names plausible for a target of architecture `arch`.
pub open spec fn triples(arch: Seq<u8>) -> Seq<Seq<u8>> {
    if arch == "arm".spec_bytes() {
        seq![arch + "-linux-gnu".spec_bytes(), "arm-linux-gnueabihf".spec_bytes()]
    } else {
        seq![arch + "-linux-gnu".spec_bytes()]
    }
}

/// The multiarch directory names plausible for a target of architecture `arch`.
pub fn multiarch_triples(arch: &[u8]) -> (r: Vec<Vec<u8>>)
    ensures
        contents(r@) == triples(arch@),
{
    let mut triple: Vec<u8> = Vec::new();
    triple.extend_from_slice(arch);
    triple.extend_from_slice("-linux-gnu".as_bytes());
    assert(triple@ =~= arch@ + "-linux-gnu".spec_bytes());
    let mut triples: Vec<Vec<u8>> = Vec::new();
    triples.push(triple);
    if same_bytes(arch, "arm".as_bytes()) {
        triples.push(slice_to_vec("arm-linux-gnueabihf".as_bytes()));
    }
    assert(contents(triples@) =~= self::triples(arch@));
    triples
}

/// What the search for the library depends on.
#[derive(Debug, Clone)]
pub struct Surroundings {
    /// `RKLLM_LIB` from the environment.
    pub rkllm_lib: Option<Vec<u8>>,
    /// `RKLLM_LIB_DIR` from the environment.
    pub rkllm_lib_dir: Option<Vec<u8>>,
    /// `LD_LIBRARY_PATH` from the environment.
    pub ld_library_path: Option<Vec<u8>>,
    /// The directory of the running executable.
    pub exe_dir: Option<Vec<u8>>,
    /// The directory above that one.
    pub exe_dir_parent: Option<Vec<u8>>,
    /// The architecture built for, such as `aarch64`.
    pub arch: Vec<u8>,
}

/// Directories searched after the environment and the executable, in order.
pub open spec fn system_dirs() -> Seq<Seq<u8>> {
    seq![
        "/usr/lib".spec_bytes(),
        "/usr/local/lib".spec_bytes(),
        "/usr/lib64".spec_bytes(),
        "/lib".spec_bytes(),
        "/opt/rkllm/lib".spec_bytes(),
    ]
}

impl Surroundings {
    /// `RKLLM_LIB`, taken as the full path to the shared object.
    pub open spec fn named(self) -> Seq<Seq<u8>> {
        match self.rkllm_lib {
            Some(path) => seq![path@],
            None => Seq::empty(),
        }
    }

    /// The library in `RKLLM_LIB_DIR`.
    pub open spec fn in_named_dir(self) -> Seq<Seq<u8>> {
        match self.rkllm_lib_dir {
            Some(dir) => seq![library_in(dir@)],
            None => Seq::empty(),
        }
    }

    /// The library in each entry of `LD_LIBRARY_PATH`.
    pub open spec fn in_loader_dirs(self) -> Seq<Seq<u8>> {
        match self.ld_library_path {
            Some(list) => libraries_in(split(list@, LIST_SEPARATOR)),
            None => Seq::empty(),
        }
    }

    /// Beside the running executable, then `lib` under it and beside it.
    pub open spec fn near_executable(self) -> Seq<Seq<u8>> {
        match (self.exe_dir, self.exe_dir_parent) {
            (None, _) => Seq::empty(),
            (Some(dir), None) => seq![
                library_in(dir@),
                library_in(joined(dir@, "lib".spec_bytes())),
            ],
            (Some(dir), Some(parent)) => seq![
                library_in(dir@),
                library_in(joined(dir@, "lib".spec_bytes())),
                library_in(joined(parent@, "lib".spec_bytes())),
            ],
        }
    }

    /// The library in each of the usual system library directories.
    pub open spec fn in_system_dirs(self) -> Seq<Seq<u8>> {
        libraries_in(system_dirs()) + libraries_in(
            triples(self.arch@).map_values(
                |triple: Seq<u8>| joined("/usr/lib".spec_bytes(), triple),
            ),
        )
    }

    /// Everywhere the library is looked for, the most specific place first. The
    /// bare name stands for the working directory.
    pub open spec fn searched(self) -> Seq<Seq<u8>> {
        self.named() + self.in_named_dir() + self.in_loader_dirs() + self.near_executable() + seq![
            LIBRARY_NAME.spec_bytes(),
        ] + self.in_system_dirs()
    }
}

/// Adds the library inside each directory of `dirs`, in order.
fn add_libraries(out: &mut Vec<Vec<u8>>, dirs: &Vec<Vec<u8>>)
    ensures
        contents(final(out)@) == contents(old(out)@) + libraries_in(contents(dirs@)),
{
    let ghost before = contents(out@);
    let mut i: usize = 0;
    assert(contents(out@) =~= before + libraries_in(contents(dirs@).take(0)));
    while i < dirs.len()
        invariant
            i <= dirs.len(),
            contents(out@) == before + libraries_in(contents(dirs@).take(i as int)),
        decreases dirs.len() - i,
    {
        let ghost current = out@;
        out.push(library_path(dirs[i].as_slice()));
        assert(contents(out@) =~= contents(current).push(library_in(dirs@[i as int]@)));
        assert(contents(dirs@).take(i + 1) =~= contents(dirs@).take(i as int).push(
            dirs@[i as int]@,
        ));
        assert(libraries_in(contents(dirs@).take(i + 1)) =~= libraries_in(
            contents(dirs@).take(i as int),
        ).push(library_in(dirs@[i as int]@)));
        i += 1;
    }
    assert(contents(dirs@).take(i as int) =~= contents(dirs@));
}

/// Adds one path.
fn add_path(out: &mut Vec<Vec<u8>>, path: Vec<u8>)
    ensures
        contents(final(out)@) == contents(old(out)@) + seq![path@],
{
    let ghost before = out@;
    out.push(path);
    assert(contents(out@) =~= contents(before) + seq![path@]);
}

/// Builds the candidate list.
#[verifier::rlimit(40)]
pub fn candidates(from: &Surroundings) -> (r: Vec<Vec<u8>>)
    ensures
        contents(r@) == from.searched(),
{
    let mut out: Vec<Vec<u8>> = Vec::new();
    assert(contents(out@) =~= Seq::empty());

    if let Some(path) = &from.rkllm_lib {
        add_path(&mut out, slice_to_vec(path.as_slice()));
    }
    assert(contents(out@) =~= from.named());
    if let Some(dir) = &from.rkllm_lib_dir {
        add_path(&mut out, library_path(dir.as_slice()));
    }
    assert(contents(out@) =~= from.named() + from.in_named_dir());
    if let Some(list) = &from.ld_library_path {
        add_libraries(&mut out, &split_at(list.as_slice(), LIST_SEPARATOR));
    }
    let ghost environment = from.named() + from.in_named_dir() + from.in_loader_dirs();
    assert(contents(out@) =~= environment);

    if let Some(dir) = &from.exe_dir {
        add_path(&mut out, library_path(dir.as_slice()));
        let lib: Vec<u8> = join(dir.as_slice(), "lib".as_bytes());
        add_path(&mut out, library_path(lib.as_slice()));
        if let Some(parent) = &from.exe_dir_parent {
            let lib: Vec<u8> = join(parent.as_slice(), "lib".as_bytes());
            add_path(&mut out, library_path(lib.as_slice()));
        }
    }
    assert(contents(out@) =~= environment + from.near_executable());

    add_path(&mut out, slice_to_vec(LIBRARY_NAME.as_bytes()));
    let ghost specific = environment + from.near_executable() + seq![LIBRARY_NAME.spec_bytes()];
    assert(contents(out@) =~= specific);

    let mut system: Vec<Vec<u8>> = Vec::new();
    system.push(slice_to_vec("/usr/lib".as_bytes()));
    system.push(slice_to_vec("/usr/local/lib".as_bytes()));
    system.push(slice_to_vec("/usr/lib64".as_bytes()));
    system.push(slice_to_vec("/lib".as_bytes()));
    system.push(slice_to_vec("/opt/rkllm/lib".as_bytes()));
    assert(contents(system@) =~= system_dirs());
    add_libraries(&mut out, &system);

    let triples: Vec<Vec<u8>> = multiarch_triples(from.arch.as_slice());
    let mut multiarch: Vec<Vec<u8>> = Vec::new();
    let mut i: usize = 0;
    while i < triples.len()
        invariant
            i <= triples.len(),
            multiarch.len() == i,
            forall|j: int|
                #![trigger multiarch@[j]]
                0 <= j < i ==> multiarch@[j]@ == joined("/usr/lib".spec_bytes(), triples@[j]@),
        decreases triples.len() - i,
    {
        multiarch.push(join("/usr/lib".as_bytes(), triples[i].as_slice()));
        i += 1;
    }
    assert(contents(multiarch@) =~= contents(triples@).map_values(
        |triple: Seq<u8>| joined("/usr/lib".spec_bytes(), triple),
    ));
    add_libraries(&mut out, &multiarch);
    assert(contents(out@) =~= from.searched());
    out
}

/// What the file system says about one candidate.
#[derive(Debug, Clone)]
pub struct Probe {
    /// The candidate.
    pub path: Vec<u8>,
    /// Whether there is a file at it.
    pub is_file: bool,
    /// The path of that file once every link is resolved, unless that fails.
    pub canonical: Option<Vec<u8>>,
}

impl Probe {
    /// What tells the file apart from others. Falls back to the path itself when
    /// it cannot be resolved, so an unreadable parent directory hides nothing.
    pub open spec fn file_identity(self) -> Seq<u8> {
        match self.canonical {
            Some(path) => path@,
            None => self.path@,
        }
    }

    /// What tells the file apart from others.
    fn identity(&self) -> (r: &Vec<u8>)
        ensures
            r@ == self.file_identity(),
    {
        match &self.canonical {
            Some(path) => path,
            None => &self.path,
        }
    }
}

/// Whether the candidate at `i` is a file that no earlier candidate reaches.
pub open spec fn is_first_of_its_file(probes: Seq<Probe>, i: int) -> bool {
    &&& probes[i].is_file
    &&& forall|j: int|
        0 <= j < i && (#[trigger] probes[j]).is_file ==> !same_path(
            probes[j].file_identity(),
            probes[i].file_identity(),
        )
}

/// The candidates that are kept, in order.
pub open spec fn kept(probes: Seq<Probe>) -> Seq<Seq<u8>>
    decreases probes.len(),
{
    if probes.len() == 0 {
        Seq::empty()
    } else if is_first_of_its_file(probes, probes.len() - 1) {
        kept(probes.drop_last()).push(probes.last().path@)
    } else {
        kept(probes.drop_last())
    }
}

/// Whether the candidate at `i` reaches a file that an earlier one does.
fn is_seen(probes: &[Probe], i: usize) -> (r: bool)
    requires
        i < probes@.len(),
    ensures
        r == exists|j: int|
            0 <= j < i && (#[trigger] probes@[j]).is_file && same_path(
                probes@[j].file_identity(),
                probes@[i as int].file_identity(),
            ),
{
    let mut j: usize = 0;
    while j < i
        invariant
            j <= i < probes@.len(),
            forall|k: int|
                0 <= k < j && (#[trigger] probes@[k]).is_file ==> !same_path(
                    probes@[k].file_identity(),
                    probes@[i as int].file_identity(),
                ),
        decreases i - j,
    {
        if probes[j].is_file && is_same_path(
            probes[j].identity().as_slice(),
            probes[i].identity().as_slice(),
        ) {
            return true;
        }
        j += 1;
    }
    false
}

/// Keeps the candidates that exist, without repeating a file reached two ways.
pub fn existing(probes: &[Probe]) -> (r: Vec<Vec<u8>>)
    ensures
        contents(r@) == kept(probes@),
{
    let mut out: Vec<Vec<u8>> = Vec::new();
    let mut i: usize = 0;
    assert(probes@.take(0) =~= Seq::empty());
    assert(contents(out@) =~= Seq::empty());
    while i < probes.len()
        invariant
            i <= probes.len(),
            contents(out@) == kept(probes@.take(i as int)),
        decreases probes.len() - i,
    {
        let ghost next = probes@.take(i + 1);
        assert(next.drop_last() =~= probes@.take(i as int));
        assert(next.last() == probes@[i as int]);
        assert(forall|j: int| 0 <= j <= i ==> next[j] == probes@[j]);
        if probes[i].is_file && !is_seen(probes, i) {
            assert(is_first_of_its_file(next, i as int));
            add_path(&mut out, slice_to_vec(probes[i].path.as_slice()));
            assert(contents(out@) =~= kept(next));
        } else {
            proof {
                if probes@[i as int].is_file {
                    let j = choose|j: int|
                        0 <= j < i && (#[trigger] probes@[j]).is_file && same_path(
                            probes@[j].file_identity(),
                            probes@[i as int].file_identity(),
                        );
                    assert(next[j].is_file);
                }
            }
        }
        i += 1;
    }
    assert(probes@.take(i as int) =~= probes@);
    out
}

/// Whether the candidate at `i` is the one by which the file of the candidate at
/// `j` is kept.
pub open spec fn keeps_file_of(probes: Seq<Probe>, i: int, j: int) -> bool {
    is_first_of_its_file(probes, i) && same_path(
        probes[i].file_identity(),
        probes[j].file_identity(),
    )
}

/// The place at which the candidate at `i` is kept, where it is: behind those kept
/// before it.
pub open spec fn place(probes: Seq<Probe>, i: int) -> int {
    kept(probes.take(i)).len() as int
}

/// What is kept of the first candidates is kept first.
proof fn kept_grows(probes: Seq<Probe>, n: int)
    requires
        0 <= n <= probes.len(),
    ensures
        kept(probes.take(n)).len() <= kept(probes).len(),
        kept(probes).take(kept(probes.take(n)).len() as int) == kept(probes.take(n)),
    decreases probes.len(),
{
    if n == probes.len() {
        assert(probes.take(n) =~= probes);
        assert(kept(probes).take(kept(probes).len() as int) =~= kept(probes));
    } else {
        let rest = probes.drop_last();
        kept_grows(rest, n);
        assert(rest.take(n) =~= probes.take(n));
        let len = kept(probes.take(n)).len() as int;
        assert(kept(probes).take(len) =~= kept(rest).take(len));
    }
}

/// A candidate that is the first to reach its file is kept, at its place.
pub proof fn first_candidates_are_kept(probes: Seq<Probe>, i: int)
    requires
        0 <= i < probes.len(),
        is_first_of_its_file(probes, i),
    ensures
        0 <= place(probes, i) < kept(probes).len(),
        kept(probes)[place(probes, i)] == probes[i].path@,
{
    let upto = probes.take(i + 1);
    assert(upto.drop_last() =~= probes.take(i));
    assert(forall|j: int| 0 <= j <= i ==> upto[j] == probes[j]);
    assert(is_first_of_its_file(upto, i)) by {
        assert forall|j: int| 0 <= j < i && (#[trigger] upto[j]).is_file implies !same_path(
            upto[j].file_identity(),
            upto[i].file_identity(),
        ) by {
            assert(probes[j].is_file);
        }
    }
    assert(kept(upto) == kept(probes.take(i)).push(probes[i].path@));
    kept_grows(probes, i + 1);
    assert(kept(probes).take(kept(upto).len() as int)[place(probes, i)] == probes[i].path@);
}

/// What is kept is kept in the order of the candidates.
pub proof fn kept_in_order(probes: Seq<Probe>, i: int, j: int)
    requires
        0 <= i < j < probes.len(),
        is_first_of_its_file(probes, i),
    ensures
        place(probes, i) < place(probes, j),
{
    let upto = probes.take(j);
    assert(is_first_of_its_file(upto, i)) by {
        assert forall|k: int| 0 <= k < i && (#[trigger] upto[k]).is_file implies !same_path(
            upto[k].file_identity(),
            upto[i].file_identity(),
        ) by {
            assert(probes[k].is_file);
        }
    }
    first_candidates_are_kept(upto, i);
    assert(upto.take(i) =~= probes.take(i));
}

/// Every file that is there is kept, by the earliest candidate that reaches it.
pub proof fn every_file_is_kept(probes: Seq<Probe>, j: int) -> (i: int)
    requires
        0 <= j < probes.len(),
        probes[j].is_file,
    ensures
        0 <= i <= j,
        keeps_file_of(probes, i, j),
        kept(probes).contains(probes[i].path@),
    decreases j,
{
    if is_first_of_its_file(probes, j) {
        first_candidates_are_kept(probes, j);
        j
    } else {
        let earlier = choose|k: int|
            0 <= k < j && (#[trigger] probes[k]).is_file && same_path(
                probes[k].file_identity(),
                probes[j].file_identity(),
            );
        every_file_is_kept(probes, earlier)
    }
}

/// No file is kept twice, however many candidates reach it.
pub proof fn no_file_is_kept_twice(probes: Seq<Probe>, i: int, k: int)
    requires
        0 <= i < probes.len(),
        0 <= k < probes.len(),
        is_first_of_its_file(probes, i),
        is_first_of_its_file(probes, k),
        same_path(probes[i].file_identity(), probes[k].file_identity()),
    ensures
        i == k,
{
    if i < k {
        assert(probes[i].is_file);
    } else if k < i {
        assert(probes[k].is_file);
    }
}

/// What is kept are candidates that are files: each is the path of one that no
/// earlier candidate reaches.
pub proof fn only_files_are_kept(probes: Seq<Probe>, n: int) -> (i: int)
    requires
        0 <= n < kept(probes).len(),
    ensures
        n <= i < probes.len(),
        is_first_of_its_file(probes, i),
        kept(probes)[n] == probes[i].path@,
    decreases probes.len(),
{
    let rest = probes.drop_last();
    let last = probes.len() - 1;
    kept_are_no_more_than(rest);
    if is_first_of_its_file(probes, last) && n == kept(rest).len() {
        last
    } else {
        let i = only_files_are_kept(rest, n);
        assert(forall|j: int| 0 <= j < rest.len() ==> rest[j] == probes[j]);
        assert(is_first_of_its_file(probes, i)) by {
            assert forall|j: int|
                0 <= j < i && (#[trigger] probes[j]).is_file implies !same_path(
                probes[j].file_identity(),
                probes[i].file_identity(),
            ) by {
                assert(rest[j].is_file);
            }
        }
        i
    }
}

/// No more candidates are kept than there are.
proof fn kept_are_no_more_than(probes: Seq<Probe>)
    ensures
        kept(probes).len() <= probes.len(),
    decreases probes.len(),
{
    if probes.len() > 0 {
        kept_are_no_more_than(probes.drop_last());
    }
}

/// A path named outright comes before everything else, and the library of a
/// directory named outright comes next.
pub proof fn explicit_paths_come_first(from: Surroundings)
    ensures
        from.rkllm_lib matches Some(path) ==> from.searched()[0] == path@,
        from.rkllm_lib_dir matches Some(dir) ==> from.searched()[from.named().len() as int]
            == library_in(dir@),
{
}

/// The working directory and every system directory are searched, whatever the
/// environment says.
pub proof fn system_directories_are_always_searched(from: Surroundings, i: int)
    requires
        0 <= i < system_dirs().len(),
    ensures
        from.searched().contains(LIBRARY_NAME.spec_bytes()),
        from.searched().contains(library_in(system_dirs()[i])),
{
    let before = from.named() + from.in_named_dir() + from.in_loader_dirs()
        + from.near_executable();
    let n = before.len() as int;
    assert(from.searched()[n] == LIBRARY_NAME.spec_bytes());
    assert(from.searched()[n + 1 + i] == library_in(system_dirs()[i]));
}

/// The library of every entry of `LD_LIBRARY_PATH` is searched for.
pub proof fn every_loader_directory_is_searched(from: Surroundings, i: int)
    requires
        from.ld_library_path is Some,
        0 <= i < split(from.ld_library_path->0@, LIST_SEPARATOR).len(),
    ensures
        from.searched().contains(library_in(split(from.ld_library_path->0@, LIST_SEPARATOR)[i])),
{
    let n = (from.named() + from.in_named_dir()).len() as int;
    assert(from.searched()[n + i] == library_in(split(from.ld_library_path->0@, LIST_SEPARATOR)[i]));
}

/// A path that is absolute stands for itself. One that is relative is put behind the
/// other, with one separator between the two.
pub proof fn joining_puts_one_separator_between(base: Seq<u8>, part: Seq<u8>)
    ensures
        part.len() > 0 && part[0] == 47 ==> joined(base, part) == part,
        !(part.len() > 0 && part[0] == 47) ==> {
            let path = joined(base, part);
            let between = path.len() - base.len() - part.len();
            &&& between == (if base.len() > 0 && base.last() != 47 {
                1int
            } else {
                0
            })
            &&& path.take(base.len() as int) == base
            &&& path.skip(base.len() + between) == part
            &&& between == 1 ==> path[base.len() as int] == 47
        },
{
    let path = joined(base, part);
    if !(part.len() > 0 && part[0] == 47) {
        assert(path.take(base.len() as int) =~= base);
        assert(path.skip(path.len() - part.len()) =~= part);
    }
}

/// What pieces come to with a separator between each two.
pub open spec fn glued(pieces: Seq<Seq<u8>>, separator: u8) -> Seq<u8>
    decreases pieces.len(),
{
    if pieces.len() <= 1 {
        pieces[0]
    } else {
        glued(pieces.drop_last(), separator).push(separator) + pieces.last()
    }
}

/// Nothing of a list is lost or added by taking it apart: put together again, the
/// pieces are the list, and no piece holds a separator.
pub proof fn a_list_is_its_pieces(list: Seq<u8>, separator: u8)
    ensures
        split(list, separator).len() > 0,
        glued(split(list, separator), separator) == list,
        forall|i: int, j: int|
            0 <= i < split(list, separator).len() && 0 <= j < split(list, separator)[i].len()
                ==> #[trigger] split(list, separator)[i][j] != separator,
    decreases list.len(),
{
    reveal_with_fuel(glued, 2);
    let pieces = split(list, separator);
    if list.len() > 0 {
        let rest = split(list.drop_last(), separator);
        a_list_is_its_pieces(list.drop_last(), separator);
        assert(list =~= list.drop_last().push(list.last()));
        if list.last() == separator {
            assert(pieces.drop_last() =~= rest);
            assert(glued(pieces, separator) =~= list);
        } else {
            assert(pieces.drop_last() =~= rest.drop_last());
            assert(glued(pieces, separator) =~= list);
            assert forall|i: int, j: int|
                0 <= i < pieces.len() && 0 <= j < pieces[i].len() implies
                #[trigger] pieces[i][j] != separator by {
                if i < rest.len() - 1 || j < rest[i].len() {
                    assert(pieces[i][j] == rest[i][j]);
                }
            }
        }
    }
}

/// The pieces of two lists with a separator between them are the pieces of the one
/// and then those of the other.
proof fn pieces_of_two(a: Seq<u8>, b: Seq<u8>, separator: u8)
    ensures
        split(a.push(separator) + b, separator) == split(a, separator) + split(b, separator),
    decreases b.len(),
{
    let whole = a.push(separator) + b;
    a_list_is_its_pieces(b, separator);
    if b.len() == 0 {
        assert(whole =~= a.push(separator));
        assert(whole.drop_last() =~= a);
        assert(split(a, separator).push(Seq::empty()) =~= split(a, separator) + split(
            b,
            separator,
        ));
    } else {
        let rest = b.drop_last();
        pieces_of_two(a, rest, separator);
        a_list_is_its_pieces(rest, separator);
        assert(whole.drop_last() =~= a.push(separator) + rest);
        assert(whole.last() == b.last());
        let both = split(a, separator) + split(rest, separator);
        assert(both.last() == split(rest, separator).last());
        assert(both.drop_last() =~= split(a, separator) + split(rest, separator).drop_last());
        assert(split(whole, separator) =~= split(a, separator) + split(b, separator));
    }
}

/// The pieces that lead on are kept, and no others.
pub proof fn only_empty_pieces_and_dots_are_passed_over(pieces: Seq<Seq<u8>>, piece: Seq<u8>)
    ensures
        leads_on(piece) <==> piece.len() > 0 && piece != seq![46u8],
        leading(pieces.push(piece)) == (if piece.len() > 0 && piece != seq![46u8] {
            leading(pieces).push(piece)
        } else {
            leading(pieces)
        }),
        leading(Seq::<Seq<u8>>::empty()).len() == 0,
{
    dot_is_one_byte();
    assert(pieces.push(piece).drop_last() =~= pieces);
}

/// A lone dot is the byte for it.
proof fn dot_is_one_byte()
    ensures
        ".".spec_bytes() == seq![46u8],
{
    reveal_strlit(".");
    vstd::string::is_ascii_spec_bytes(".");
    assert(".".spec_bytes() =~= seq![46u8]);
}

/// The pieces of two rows that lead on are those of the one and then those of the
/// other.
proof fn leading_of_two(a: Seq<Seq<u8>>, b: Seq<Seq<u8>>)
    ensures
        leading(a + b) == leading(a) + leading(b),
    decreases b.len(),
{
    if b.len() == 0 {
        assert(a + b =~= a);
        assert(leading(a) + leading(b) =~= leading(a));
    } else {
        leading_of_two(a, b.drop_last());
        assert((a + b).drop_last() =~= a + b.drop_last());
        assert((a + b).last() == b.last());
        assert(leading(a + b) =~= leading(a) + leading(b));
    }
}

/// To be the same path is an equivalence: a path is the same as itself, whichever
/// comes first makes no difference, and what is the same as a third is the same.
pub proof fn same_path_is_an_equivalence(a: Seq<u8>, b: Seq<u8>, c: Seq<u8>)
    ensures
        same_path(a, a),
        same_path(a, b) <==> same_path(b, a),
        same_path(a, b) && same_path(b, c) ==> same_path(a, c),
{
}

/// A separator more, or a dot between two separators, leads nowhere: it makes no
/// difference to a path.
pub proof fn separators_and_dots_make_no_difference(a: Seq<u8>, b: Seq<u8>)
    requires
        a.len() > 0,
    ensures
        same_path(a.push(47) + b, a.push(47).push(47) + b),
        same_path(a.push(47) + b, a.push(47).push(46).push(47) + b),
        same_path(a, a.push(47)),
{
    let nothing = Seq::<u8>::empty();
    let dot = seq![46u8];
    let first = split(a, 47);
    let last = split(b, 47);
    a_list_is_its_pieces(a, 47);
    dot_is_one_byte();
    reveal_with_fuel(split, 2);
    reveal_with_fuel(leading, 2);
    assert(dot.drop_last() =~= nothing);
    assert(split(nothing, 47) =~= seq![nothing]);
    assert(split(dot, 47) =~= seq![dot]);
    assert(seq![nothing].drop_last() =~= Seq::empty());
    assert(seq![dot].drop_last() =~= Seq::empty());
    leading_of_two(first, last);
    pieces_of_two(a, b, 47);
    // One separator more.
    let twice = nothing.push(47) + b;
    assert(a.push(47).push(47) + b =~= a.push(47) + twice);
    pieces_of_two(a, twice, 47);
    pieces_of_two(nothing, b, 47);
    leading_of_two(seq![nothing], last);
    leading_of_two(first, seq![nothing] + last);
    assert(leading(seq![nothing]) =~= Seq::empty());
    assert(leading(seq![nothing] + last) =~= leading(last));
    assert((first + (seq![nothing] + last))[0] == first[0]);
    assert((first + last)[0] == first[0]);
    // A dot between two.
    let dotted = dot.push(47) + b;
    assert(a.push(47).push(46).push(47) + b =~= a.push(47) + dotted);
    pieces_of_two(a, dotted, 47);
    pieces_of_two(dot, b, 47);
    leading_of_two(seq![dot], last);
    leading_of_two(first, seq![dot] + last);
    assert(leading(seq![dot]) =~= Seq::empty());
    assert(leading(seq![dot] + last) =~= leading(last));
    assert((first + (seq![dot] + last))[0] == first[0]);
    // One at the end.
    pieces_of_two(a, nothing, 47);
    assert(a.push(47) + nothing =~= a.push(47));
    leading_of_two(first, seq![nothing]);
    assert(leading(first) + Seq::<Seq<u8>>::empty() =~= leading(first));
    assert((first + seq![nothing])[0] == first[0]);
}

/// Whether a path starts at the root and every piece behind it leads on, as a path
/// with every link resolved does.
pub open spec fn is_plain(path: Seq<u8>) -> bool {
    &&& path.len() > 1
    &&& path[0] == 47
    &&& forall|i: int|
        0 < i < split(path, 47).len() ==> {
            &&& (#[trigger] split(path, 47)[i]).len() > 0
            &&& split(path, 47)[i] != seq![46u8]
        }
}

/// Rows of pieces that all lead on are kept whole.
proof fn leading_keeps_what_leads_on(pieces: Seq<Seq<u8>>)
    requires
        forall|i: int| 0 <= i < pieces.len() ==> leads_on(#[trigger] pieces[i]),
    ensures
        leading(pieces) == pieces,
    decreases pieces.len(),
{
    if pieces.len() > 0 {
        leading_keeps_what_leads_on(pieces.drop_last());
        assert(leading(pieces) =~= pieces);
    }
}

/// A path that starts with a separator has an empty piece in front.
proof fn a_rooted_path_starts_with_nothing(path: Seq<u8>)
    requires
        path.len() > 0,
        path[0] == 47,
    ensures
        split(path, 47).len() > 1,
        split(path, 47)[0].len() == 0,
{
    let nothing = Seq::<u8>::empty();
    assert(path =~= nothing.push(47) + path.skip(1));
    pieces_of_two(nothing, path.skip(1), 47);
    a_list_is_its_pieces(path.skip(1), 47);
    assert(split(nothing, 47) =~= seq![nothing]);
}

/// Two paths with nothing in them to pass over are the same only where they agree to
/// the byte, so no file is taken for another.
pub proof fn plain_paths_differ_as_they_are_written(a: Seq<u8>, b: Seq<u8>)
    requires
        is_plain(a),
        is_plain(b),
        same_path(a, b),
    ensures
        a == b,
{
    dot_is_one_byte();
    a_rooted_path_starts_with_nothing(a);
    a_rooted_path_starts_with_nothing(b);
    let first = split(a, 47);
    let second = split(b, 47);
    let nothing = Seq::<u8>::empty();
    assert(first =~= seq![nothing] + first.skip(1)) by {
        assert(first[0] =~= nothing);
    }
    assert(second =~= seq![nothing] + second.skip(1)) by {
        assert(second[0] =~= nothing);
    }
    leading_of_two(seq![nothing], first.skip(1));
    leading_of_two(seq![nothing], second.skip(1));
    reveal_with_fuel(leading, 2);
    assert(seq![nothing].drop_last() =~= Seq::empty());
    assert(leading(seq![nothing]) =~= Seq::empty());
    assert forall|i: int| 0 <= i < first.skip(1).len() implies leads_on(
        #[trigger] first.skip(1)[i],
    ) by {
        assert(first.skip(1)[i] == first[i + 1]);
    }
    assert forall|i: int| 0 <= i < second.skip(1).len() implies leads_on(
        #[trigger] second.skip(1)[i],
    ) by {
        assert(second.skip(1)[i] == second[i + 1]);
    }
    leading_keeps_what_leads_on(first.skip(1));
    leading_keeps_what_leads_on(second.skip(1));
    assert(leading(first) =~= first.skip(1));
    assert(leading(second) =~= second.skip(1));
    assert(first =~= second);
    a_list_is_its_pieces(a, 47);
    a_list_is_its_pieces(b, 47);
}

/// A path that starts at the root is never the same as one that does not.
pub proof fn rooted_and_relative_paths_differ(a: Seq<u8>, b: Seq<u8>)
    requires
        a.len() > 0,
        a[0] == 47,
        b.len() == 0 || b[0] != 47,
    ensures
        !same_path(a, b),
{
}

/// The whole search, from the most specific place to the least: the file that was
/// named, the directory that was named, the loader's directories, near the
/// executable, the working directory, and the system's directories. A place that is
/// not given is not searched.
pub proof fn the_search_goes_from_specific_to_general(from: Surroundings)
    ensures
        from.searched() == from.named() + from.in_named_dir() + from.in_loader_dirs()
            + from.near_executable() + seq!["librkllmrt.so".spec_bytes()] + from.in_system_dirs(),
        from.rkllm_lib is None ==> from.named().len() == 0,
        from.rkllm_lib matches Some(path) ==> from.named() == seq![path@],
        from.rkllm_lib_dir is None ==> from.in_named_dir().len() == 0,
        from.rkllm_lib_dir matches Some(dir) ==> from.in_named_dir() == seq![
            joined(dir@, "librkllmrt.so".spec_bytes()),
        ],
{
}

/// The loader's directories are searched one by one, in the order of the list.
pub proof fn loader_directories_are_searched_in_order(from: Surroundings, i: int)
    ensures
        from.ld_library_path is None ==> from.in_loader_dirs().len() == 0,
        from.ld_library_path matches Some(list) ==> from.in_loader_dirs().len() == split(
            list@,
            58,
        ).len(),
        from.ld_library_path matches Some(list) ==> 0 <= i < split(list@, 58).len()
            ==> from.in_loader_dirs()[i] == joined(
            split(list@, 58)[i],
            "librkllmrt.so".spec_bytes(),
        ),
{
}

/// Near the executable, the search goes beside it, then to `lib` under its directory,
/// and then to `lib` beside that directory.
pub proof fn the_executable_is_searched_around(from: Surroundings)
    ensures
        from.exe_dir is None ==> from.near_executable().len() == 0,
        from.exe_dir matches Some(dir) ==> {
            let name = "librkllmrt.so".spec_bytes();
            &&& from.near_executable().len() == (if from.exe_dir_parent is Some {
                3int
            } else {
                2
            })
            &&& from.near_executable()[0] == joined(dir@, name)
            &&& from.near_executable()[1] == joined(joined(dir@, "lib".spec_bytes()), name)
        },
        from.exe_dir is Some && from.exe_dir_parent is Some ==> from.near_executable()[2]
            == joined(
            joined(from.exe_dir_parent->0@, "lib".spec_bytes()),
            "librkllmrt.so".spec_bytes(),
        ),
{
}

/// Of the system's directories, the common ones are searched first, and then those of
/// the architecture, of which `arm` has two.
pub proof fn the_system_is_searched_in_order(from: Surroundings)
    ensures
        from.in_system_dirs().len() == (if from.arch@ == "arm".spec_bytes() {
            7int
        } else {
            6
        }),
        ({
            let name = "librkllmrt.so".spec_bytes();
            let usr_lib = "/usr/lib".spec_bytes();
            let found = from.in_system_dirs();
            &&& found[0] == joined(usr_lib, name)
            &&& found[1] == joined("/usr/local/lib".spec_bytes(), name)
            &&& found[2] == joined("/usr/lib64".spec_bytes(), name)
            &&& found[3] == joined("/lib".spec_bytes(), name)
            &&& found[4] == joined("/opt/rkllm/lib".spec_bytes(), name)
            &&& found[5] == joined(
                joined(usr_lib, from.arch@ + "-linux-gnu".spec_bytes()),
                name,
            )
            &&& from.arch@ == "arm".spec_bytes() ==> found[6] == joined(
                joined(usr_lib, "arm-linux-gnueabihf".spec_bytes()),
                name,
            )
        }),
{
}

/// A file goes by where it leads, or by its path where that is not known.
pub proof fn a_file_goes_by_where_it_leads(probe: Probe)
    ensures
        probe.canonical matches Some(path) ==> probe.file_identity() == path@,
        probe.canonical is None ==> probe.file_identity() == probe.path@,
{
}

/// A candidate is the first of its file exactly when there is a file at it, and none
/// of the files at the candidates before it is the same.
pub proof fn the_first_of_a_file_is_the_first(probes: Seq<Probe>, i: int)
    requires
        0 <= i < probes.len(),
    ensures
        is_first_of_its_file(probes, i) <==> probes[i].is_file && !exists|j: int|
            {
                &&& 0 <= j < i
                &&& (#[trigger] probes[j]).is_file
                &&& same_path(probes[j].file_identity(), probes[i].file_identity())
            },
{
}

/// The paths that are handed out are the paths that are spoken of, in order.
pub proof fn paths_are_their_bytes(paths: Seq<Vec<u8>>, i: int)
    requires
        0 <= i < paths.len(),
    ensures
        contents(paths).len() == paths.len(),
        contents(paths)[i] == paths[i]@,
{
}

/// What is found is every file among the candidates, once each, by the first path
/// that reaches it, in the order of the candidates.
pub proof fn what_is_found_are_the_files(probes: &[Probe], r: Vec<Vec<u8>>, i: int, n: int)
    requires
        call_ensures(existing, (probes,), r),
        0 <= i < probes@.len(),
        0 <= n < r@.len(),
    ensures
        probes@[i].is_file ==> exists|j: int, m: int|
            {
                &&& 0 <= j <= i
                &&& 0 <= m < r@.len()
                &&& #[trigger] probes@[j].path@ == #[trigger] r@[m]@
                &&& same_path(probes@[j].file_identity(), probes@[i].file_identity())
            },
        exists|j: int|
            0 <= j < probes@.len() && (#[trigger] probes@[j]).is_file && probes@[j].path@ == r@[n]@,
{
    assert(contents(r@).len() == r@.len());
    assert(contents(r@)[n] == r@[n]@);
    let from = only_files_are_kept(probes@, n);
    assert(probes@[from].is_file);
    if probes@[i].is_file {
        let j = every_file_is_kept(probes@, i);
        let m = choose|m: int|
            0 <= m < kept(probes@).len() && kept(probes@)[m] == probes@[j].path@;
        assert(contents(r@)[m] == r@[m]@);
        assert(probes@[j].path@ == r@[m]@);
    }
}

/// The candidates are the places that are searched, in the same order.
pub proof fn candidates_are_the_places_searched(from: &Surroundings, r: Vec<Vec<u8>>, i: int)
    requires
        call_ensures(candidates, (from,), r),
        0 <= i < r@.len(),
    ensures
        r@.len() == from.searched().len(),
        r@[i]@ == from.searched()[i],
{
    assert(contents(r@)[i] == r@[i]@);
    assert(contents(r@).len() == r@.len());
}

/// A dot in front does make a difference to a path that starts with none.
pub proof fn a_dot_in_front_makes_a_difference(path: Seq<u8>)
    requires
        path.len() == 0 || path[0] != 47,
        split(path, 47)[0] != seq![46u8],
    ensures
        !same_path(seq![46u8, 47u8] + path, path),
{
    let dot = seq![46u8];
    dot_is_one_byte();
    reveal_with_fuel(split, 2);
    assert(dot.drop_last() =~= Seq::<u8>::empty());
    assert(split(dot, 47) =~= seq![dot]);
    assert(seq![46u8, 47u8] + path =~= dot.push(47) + path);
    pieces_of_two(dot, path, 47);
    assert(split(dot.push(47) + path, 47)[0] == dot);
}

/// Two relative paths with nothing in them to pass over are the same only where they
/// agree to the byte.
pub proof fn plain_relative_paths_differ_as_they_are_written(a: Seq<u8>, b: Seq<u8>)
    requires
        forall|i: int|
            0 <= i < split(a, 47).len() ==> (#[trigger] split(a, 47)[i]).len() > 0 && split(
                a,
                47,
            )[i] != seq![46u8],
        forall|i: int|
            0 <= i < split(b, 47).len() ==> (#[trigger] split(b, 47)[i]).len() > 0 && split(
                b,
                47,
            )[i] != seq![46u8],
        same_path(a, b),
    ensures
        a == b,
{
    dot_is_one_byte();
    leading_keeps_what_leads_on(split(a, 47));
    leading_keeps_what_leads_on(split(b, 47));
    a_list_is_its_pieces(a, 47);
    a_list_is_its_pieces(b, 47);
}

} // verus!
