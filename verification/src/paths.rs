//! Paths of files, as far as every system reads them alike.

use vstd::prelude::*;

use crate::text::{filled_pieces, pieces};

verus! {

/// A path that every system reads alike: it begins with no drive, no share and no other prefix,
/// and nothing but slashes separates its names.
pub open spec fn is_plain(path: Seq<char>) -> bool {
    &&& forall|i: int| 0 <= i < path.len() ==> path[i] != '\\' && path[i] != ':'
    &&& !(path.len() > 1 && path[0] == '/' && path[1] == '/')
}

/// A path begins at the root.
pub open spec fn is_rooted(path: Seq<char>) -> bool {
    path.len() > 0 && path[0] == '/'
}

/// Whether a piece of a path leads on from where the path has come to.
pub open spec fn leads_on() -> spec_fn(Seq<char>) -> bool {
    |piece: Seq<char>| piece != "."@
}

/// The names on a path. Repeated slashes and a slash at the end do not count, and neither does a
/// dot but at the beginning.
pub open spec fn names_on(path: Seq<char>) -> Seq<Seq<char>> {
    let filled = filled_pieces(path, '/');
    if !is_rooted(path) && filled.len() > 0 && filled[0] == "."@ {
        seq!["."@] + filled.drop_first().filter(leads_on())
    } else {
        filled.filter(leads_on())
    }
}

/// Two plain paths lead the same way.
pub open spec fn leads_alike(a: Seq<char>, b: Seq<char>) -> bool {
    is_rooted(a) == is_rooted(b) && names_on(a) == names_on(b)
}

/// `child` lies in the directory `parent`, and in none below.
pub open spec fn lies_in(parent: Seq<char>, child: Seq<char>) -> bool {
    &&& names_on(child).len() > 0
    &&& is_rooted(parent) == is_rooted(child)
    &&& names_on(parent) == names_on(child).drop_last()
}

/// Calls `Path::parent` of std. The parent of a plain path is the path without its last name; it
/// is absent where the path has no name. Of other paths nothing is stated: what their names are
/// hangs on the system that the program runs on.
#[verifier::external_body]
fn parent_of(path: &str) -> (parent: Option<String>)
    ensures
        is_plain(path@) ==> (parent is None <==> names_on(path@).len() == 0),
        is_plain(path@) ==> (parent matches Some(p) ==> is_plain(p@) && lies_in(p@, path@)),
{
    std::path::Path::new(path).parent().map(|p| p.to_string_lossy().into_owned())
}

/// Calls `==` of std on two paths. Plain paths are the same where they lead the same way. Of other
/// paths nothing is stated: what their names are hangs on the system that the program runs on.
#[verifier::external_body]
fn same_path(a: &str, b: &str) -> (same: bool)
    ensures
        is_plain(a@) && is_plain(b@) ==> same == leads_alike(a@, b@),
{
    std::path::Path::new(a) == std::path::Path::new(b)
}

/// Whether `child` lies in the directory `parent`, and in none below. Where one of them is no
/// plain path, that is for the system to say.
pub fn direct_child(parent: &str, child: &str) -> (yes: bool)
    ensures
        is_plain(parent@) && is_plain(child@) ==> yes == lies_in(parent@, child@),
{
    match parent_of(child) {
        Some(p) => same_path(p.as_str(), parent),
        None => false,
    }
}

/// No path lies in itself, and no two paths lie in each other.
pub proof fn nothing_lies_in_itself(a: Seq<char>, b: Seq<char>)
    ensures
        !lies_in(a, a),
        !(lies_in(a, b) && lies_in(b, a)),
{
}

/// A path lies in one directory at most, in however many ways that is written.
pub proof fn one_directory_above(a: Seq<char>, b: Seq<char>, child: Seq<char>)
    requires
        lies_in(a, child),
    ensures
        lies_in(b, child) <==> leads_alike(a, b),
{
}

/// A name behind a slash adds one piece to a path.
proof fn lemma_name_added(parent: Seq<char>, name: Seq<char>)
    requires
        forall|i: int| 0 <= i < name.len() ==> #[trigger] name[i] != '/',
    ensures
        pieces(parent.push('/') + name, '/') == pieces(parent, '/').push(name),
    decreases name.len(),
{
    let path = parent.push('/') + name;
    if name.len() == 0 {
        assert(name =~= Seq::<char>::empty());
        assert(path =~= parent.push('/'));
        assert(path.drop_last() =~= parent);
        assert(pieces(path, '/') =~= pieces(parent, '/').push(name));
    } else {
        let front = name.drop_last();
        assert forall|i: int| 0 <= i < front.len() implies #[trigger] front[i] != '/' by {
            assert(front[i] == name[i]);
        }
        lemma_name_added(parent, front);
        assert(path.drop_last() =~= parent.push('/') + front);
        assert(path.last() == name[name.len() - 1]);
        assert(front.push(name.last()) =~= name);
        assert(pieces(path, '/') =~= pieces(parent, '/').push(name));
    }
}

/// A name below a path from the root lies in that path, and in no other one.
pub proof fn name_lies_in_its_directory(parent: Seq<char>, name: Seq<char>, other: Seq<char>)
    requires
        parent.len() > 0,
        parent[0] == '/',
        name.len() > 0,
        name != "."@,
        forall|i: int| 0 <= i < name.len() ==> #[trigger] name[i] != '/',
    ensures
        lies_in(parent, parent.push('/') + name),
        lies_in(other, parent.push('/') + name) ==> leads_alike(parent, other),
{
    let path = parent.push('/') + name;
    let filled = |piece: Seq<char>| piece.len() > 0;
    lemma_name_added(parent, name);
    assert(path[0] == '/');
    crate::text::lemma_filter_push(pieces(parent, '/'), name, filled);
    assert(filled_pieces(path, '/') == filled_pieces(parent, '/').push(name));
    crate::text::lemma_filter_push(filled_pieces(parent, '/'), name, leads_on());
    assert(names_on(path) == names_on(parent).push(name));
    assert(names_on(path).drop_last() =~= names_on(parent));
}

/// A slash at the end, or a dot behind it, leads nowhere else.
pub proof fn trailing_slash_leads_alike(path: Seq<char>)
    requires
        path.len() > 0,
        path[0] == '/',
    ensures
        leads_alike(path, path.push('/')),
        leads_alike(path, path.push('/').push('.')),
{
    reveal_strlit(".");
    let filled = |piece: Seq<char>| piece.len() > 0;
    let none = Seq::<char>::empty();
    let dot = seq!['.'];
    assert(dot =~= "."@);
    lemma_name_added(path, none);
    lemma_name_added(path, dot);
    assert(path.push('/') + none =~= path.push('/'));
    assert(path.push('/') + dot =~= path.push('/').push('.'));
    crate::text::lemma_filter_push(pieces(path, '/'), none, filled);
    crate::text::lemma_filter_push(pieces(path, '/'), dot, filled);
    crate::text::lemma_filter_push(filled_pieces(path, '/'), dot, leads_on());
    assert(path.push('/')[0] == '/');
    assert(path.push('/').push('.')[0] == '/');
}

} // verus!
