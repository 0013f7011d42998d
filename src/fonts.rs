//! Assembly of the font database that the rasteriser looks fonts up in.
use vstd::prelude::*;
use crate::options::{JsFontOptions, texts};

verus! {

#[verifier::external_type_specification]
#[verifier::external_body]
pub struct ExDatabase(usvg::fontdb::Database);

/// The families set behind the generic names, in the order serif, sans-serif,
/// cursive, fantasy, monospace; `None` where none was set.
pub uninterp spec fn generic_families(db: usvg::fontdb::Database) -> Seq<Option<Seq<char>>>;

/// For each face of the database, in order, the path of the file that it was
/// loaded from, as text; `None` for a face loaded from bytes in memory.
pub uninterp spec fn face_files(db: usvg::fontdb::Database) -> Seq<Option<Seq<char>>>;

/// `b` holds `a` as its beginning.
pub open spec fn extends<A>(a: Seq<A>, b: Seq<A>) -> bool {
    a.len() <= b.len() && forall|k: int| 0 <= k < a.len() ==> #[trigger] b[k] == a[k]
}

/// Relies on fontdb's `Database::new`: a database without faces that sets no
/// generic family.
#[verifier::external_body]
fn new_database() -> (r: usvg::fontdb::Database)
    ensures
        generic_families(r) == Seq::new(5, |i: int| None::<Seq<char>>),
        face_files(r).len() == 0,
{
    usvg::fontdb::Database::new()
}

/// Relies on fontdb's `Database::load_system_fonts`, which only adds faces.
#[verifier::external_body]
fn load_system_fonts(db: &mut usvg::fontdb::Database)
    ensures
        generic_families(*final(db)) == generic_families(*old(db)),
        extends(face_files(*old(db)), face_files(*final(db))),
{
    db.load_system_fonts()
}

/// Relies on fontdb's `Database::load_font_file`: it fails, adding nothing,
/// where the file cannot be opened or mapped, and its I/O error is handed back
/// as text; else it adds the faces that it can read, each with that file as
/// its source.
#[verifier::external_body]
fn load_font_file(db: &mut usvg::fontdb::Database, path: &String) -> (r: Result<(), String>)
    ensures
        generic_families(*final(db)) == generic_families(*old(db)),
        r is Err ==> face_files(*final(db)) == face_files(*old(db)),
        r is Ok ==> extends(face_files(*old(db)), face_files(*final(db))),
        r is Ok ==> forall|k: int| face_files(*old(db)).len() <= k < face_files(*final(db)).len()
            ==> #[trigger] face_files(*final(db))[k] == Some(path@),
{
    db.load_font_file(path.as_str()).map_err(|e| e.to_string())
}

/// Relies on fontdb's `Database::load_fonts_dir`, which only adds faces.
#[verifier::external_body]
fn load_fonts_dir(db: &mut usvg::fontdb::Database, path: &String)
    ensures
        generic_families(*final(db)) == generic_families(*old(db)),
        extends(face_files(*old(db)), face_files(*final(db))),
{
    db.load_fonts_dir(path.as_str())
}

/// Relies on fontdb's `Database::set_serif_family`.
#[verifier::external_body]
fn set_serif_family(db: &mut usvg::fontdb::Database, family: &String)
    ensures
        generic_families(*final(db)) == generic_families(*old(db)).update(0, Some(family@)),
        face_files(*final(db)) == face_files(*old(db)),
{
    db.set_serif_family(family.as_str())
}

/// Relies on fontdb's `Database::set_sans_serif_family`.
#[verifier::external_body]
fn set_sans_serif_family(db: &mut usvg::fontdb::Database, family: &String)
    ensures
        generic_families(*final(db)) == generic_families(*old(db)).update(1, Some(family@)),
        face_files(*final(db)) == face_files(*old(db)),
{
    db.set_sans_serif_family(family.as_str())
}

/// Relies on fontdb's `Database::set_cursive_family`.
#[verifier::external_body]
fn set_cursive_family(db: &mut usvg::fontdb::Database, family: &String)
    ensures
        generic_families(*final(db)) == generic_families(*old(db)).update(2, Some(family@)),
        face_files(*final(db)) == face_files(*old(db)),
{
    db.set_cursive_family(family.as_str())
}

/// Relies on fontdb's `Database::set_fantasy_family`.
#[verifier::external_body]
fn set_fantasy_family(db: &mut usvg::fontdb::Database, family: &String)
    ensures
        generic_families(*final(db)) == generic_families(*old(db)).update(3, Some(family@)),
        face_files(*final(db)) == face_files(*old(db)),
{
    db.set_fantasy_family(family.as_str())
}

/// Relies on fontdb's `Database::set_monospace_family`.
#[verifier::external_body]
fn set_monospace_family(db: &mut usvg::fontdb::Database, family: &String)
    ensures
        generic_families(*final(db)) == generic_families(*old(db)).update(4, Some(family@)),
        face_files(*final(db)) == face_files(*old(db)),
{
    db.set_monospace_family(family.as_str())
}

/// A font file that could not be loaded.
#[derive(Debug)]
pub struct FontWarning {
    pub path: String,
    pub cause: String,
}

/// A font database and the font files that it could not load.
pub struct LoadedFonts {
    pub database: usvg::fontdb::Database,
    pub warnings: Vec<FontWarning>,
}

/// Each warning as its path and cause.
pub open spec fn warnings_view(w: Seq<FontWarning>) -> Seq<(Seq<char>, Seq<char>)> {
    w.map_values(|x: FontWarning| (x.path@, x.cause@))
}

/// The cause of each load failure; `None` where the load succeeded.
pub open spec fn causes_view(outcomes: Seq<Result<(), String>>) -> Seq<Option<Seq<char>>> {
    outcomes.map_values(|o: Result<(), String>| match o {
        Ok(_) => None,
        Err(c) => Some(c@),
    })
}

/// The path and cause of each file whose load failed, in the order of `files`.
pub open spec fn warnings_of(files: Seq<Seq<char>>, causes: Seq<Option<Seq<char>>>) -> Seq<(Seq<char>, Seq<char>)>
    decreases files.len(),
{
    if files.len() == 0 || causes.len() == 0 {
        Seq::empty()
    } else {
        let rest = warnings_of(files.drop_last(), causes.drop_last());
        match causes.last() {
            Some(c) => rest.push((files.last(), c)),
            None => rest,
        }
    }
}

/// The warnings for a list of font files, given the outcome of loading each.
pub fn font_warnings(files: &Vec<String>, outcomes: &Vec<Result<(), String>>) -> (r: Vec<FontWarning>)
    requires
        files@.len() == outcomes@.len(),
    ensures
        warnings_view(r@) == warnings_of(texts(files@), causes_view(outcomes@)),
{
    let mut out: Vec<FontWarning> = Vec::new();
    let mut i: usize = 0;
    while i < files.len()
        invariant
            files@.len() == outcomes@.len(),
            i <= files@.len(),
            warnings_view(out@) == warnings_of(texts(files@).take(i as int), causes_view(outcomes@).take(i as int)),
        decreases files@.len() - i,
    {
        let ghost fs = texts(files@).take(i + 1);
        let ghost cs = causes_view(outcomes@).take(i + 1);
        assert(fs.drop_last() =~= texts(files@).take(i as int));
        assert(cs.drop_last() =~= causes_view(outcomes@).take(i as int));
        match &outcomes[i] {
            Ok(()) => {},
            Err(cause) => {
                out.push(FontWarning { path: files[i].clone(), cause: cause.clone() });
                assert(warnings_view(out@) =~= warnings_view(out@.drop_last()).push((files@[i as int]@, cause@)));
            },
        }
        i = i + 1;
    }
    assert(texts(files@).take(i as int) =~= texts(files@));
    assert(causes_view(outcomes@).take(i as int) =~= causes_view(outcomes@));
    out
}

/// The generic families that the font settings name, in the order of
/// [`generic_families`].
pub open spec fn families_of(f: JsFontOptions) -> Seq<Option<Seq<char>>> {
    seq![
        Some(f.serif_family@),
        Some(f.sans_serif_family@),
        Some(f.cursive_family@),
        Some(f.fantasy_family@),
        Some(f.monospace_family@),
    ]
}

/// `faces` holds, after `system` faces that come before the font files, one
/// face for each `owners[k]`: a face of font file `owners[k]`, whose load did
/// not fail, with the files in the order in which they are listed.
pub open spec fn faces_from_files(
    faces: Seq<Option<Seq<char>>>,
    system: int,
    owners: Seq<int>,
    files: Seq<Seq<char>>,
    causes: Seq<Option<Seq<char>>>,
) -> bool {
    0 <= system && system + owners.len() <= faces.len()
        && (forall|k: int| 0 <= k < owners.len() ==> 0 <= #[trigger] owners[k] < files.len()
            && owners[k] < causes.len() && causes[owners[k]] is None
            && faces[system + k] == Some(files[owners[k]]))
        && (forall|k1: int, k2: int| 0 <= k1 <= k2 < owners.len() ==> #[trigger] owners[k1] <= #[trigger] owners[k2])
}

/// Builds a font database: the system fonts if asked for, then each font file
/// in order, then each font directory, then the five generic families. A font
/// file that cannot be loaded gives a warning and the build goes on.
pub fn load_fonts(font_options: &JsFontOptions) -> (r: LoadedFonts)
    ensures
        generic_families(r.database) == families_of(*font_options),
        exists|causes: Seq<Option<Seq<char>>>, system: int, owners: Seq<int>|
            causes.len() == font_options.font_files@.len()
            && warnings_view(r.warnings@) == #[trigger] warnings_of(texts(font_options.font_files@), causes)
            && #[trigger] faces_from_files(face_files(r.database), system, owners, texts(font_options.font_files@), causes)
            && (!font_options.load_system_fonts ==> system == 0)
            && (font_options.font_dirs@.len() == 0 ==> face_files(r.database).len() == system + owners.len()),
{
    let mut database = new_database();
    if font_options.load_system_fonts {
        load_system_fonts(&mut database);
    }
    let ghost system = face_files(database).len() as int;
    let ghost mut owners: Seq<int> = Seq::empty();
    let files = &font_options.font_files;
    let mut outcomes: Vec<Result<(), String>> = Vec::new();
    let mut i: usize = 0;
    while i < files.len()
        invariant
            i <= files@.len(),
            outcomes@.len() == i,
            generic_families(database) == Seq::new(5, |k: int| None::<Seq<char>>),
            !font_options.load_system_fonts ==> system == 0,
            face_files(database).len() == system + owners.len(),
            forall|k: int| 0 <= k < owners.len() ==> #[trigger] owners[k] < i,
            faces_from_files(face_files(database), system, owners, texts(files@), causes_view(outcomes@)),
        decreases files@.len() - i,
    {
        let ghost before = face_files(database);
        let ghost old_owners = owners;
        let ghost old_causes = causes_view(outcomes@);
        let ghost old_outcomes = outcomes@;
        let outcome = load_font_file(&mut database, &files[i]);
        proof {
            if outcome is Ok {
                owners = owners + Seq::new((face_files(database).len() - before.len()) as nat, |x: int| i as int);
            }
        }
        outcomes.push(outcome);
        proof {
            let after = face_files(database);
            let causes = causes_view(outcomes@);
            assert(causes.len() == i + 1);
            assert forall|j: int| 0 <= j < i implies causes[j] == old_causes[j] by {
                assert(outcomes@[j] == old_outcomes[j]);
            }
            assert(causes[i as int] is None <==> outcome is Ok);
            assert forall|k: int| 0 <= k < owners.len() implies 0 <= #[trigger] owners[k] < files@.len()
                && owners[k] < causes.len() && causes[owners[k]] is None
                && after[system + k] == Some(texts(files@)[owners[k]]) by {
                if k < old_owners.len() {
                    assert(owners[k] == old_owners[k]);
                    assert(before[system + k] == Some(texts(files@)[owners[k]]));
                } else {
                    assert(owners[k] == i);
                }
            }
        }
        i = i + 1;
    }
    let warnings = font_warnings(files, &outcomes);
    let ghost file_faces = face_files(database);
    let dirs = &font_options.font_dirs;
    let mut j: usize = 0;
    while j < dirs.len()
        invariant
            j <= dirs@.len(),
            generic_families(database) == Seq::new(5, |k: int| None::<Seq<char>>),
            extends(file_faces, face_files(database)),
            j == 0 ==> face_files(database) == file_faces,
        decreases dirs@.len() - j,
    {
        load_fonts_dir(&mut database, &dirs[j]);
        j = j + 1;
    }
    set_serif_family(&mut database, &font_options.serif_family);
    set_sans_serif_family(&mut database, &font_options.sans_serif_family);
    set_cursive_family(&mut database, &font_options.cursive_family);
    set_fantasy_family(&mut database, &font_options.fantasy_family);
    set_monospace_family(&mut database, &font_options.monospace_family);
    assert(generic_families(database) =~= families_of(*font_options));
    let ghost causes = causes_view(outcomes@);
    assert(faces_from_files(face_files(database), system, owners, texts(font_options.font_files@), causes));
    let loaded = LoadedFonts { database, warnings };
    assert(face_files(loaded.database) == face_files(database));
    assert(warnings_view(loaded.warnings@) == warnings_view(warnings@));
    loaded
}

} // verus!
