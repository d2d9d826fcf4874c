//! One generated declaration: its name, its body, and the imports and
//! references to other declarations that its header will carry.

use vstd::prelude::*;
use vstd::string::StringExecFns;

verus! {

/// The model of a [`Snippet`].
pub struct SnippetView {
    pub id: Seq<char>,
    pub code: Seq<char>,
    pub imports: Seq<Seq<char>>,
    pub dependencies: Seq<Seq<char>>,
}

/// `acc` with `x` added at the end, unless it is already there.
pub open spec fn with_item(acc: Seq<Seq<char>>, x: Seq<char>) -> Seq<Seq<char>> {
    if acc.contains(x) {
        acc
    } else {
        acc.push(x)
    }
}

/// `acc` with each of `xs` added in turn, in order of first use.
pub open spec fn with_items(acc: Seq<Seq<char>>, xs: Seq<Seq<char>>) -> Seq<Seq<char>>
    decreases xs.len(),
{
    if xs.len() == 0 {
        acc
    } else {
        with_item(with_items(acc, xs.drop_last()), xs.last())
    }
}

/// Adding two runs of items one after the other adds their concatenation.
pub proof fn lemma_with_items_concat(acc: Seq<Seq<char>>, xs: Seq<Seq<char>>, ys: Seq<Seq<char>>)
    ensures
        with_items(with_items(acc, xs), ys) == with_items(acc, xs + ys),
    decreases ys.len(),
{
    if ys.len() == 0 {
        assert(xs + ys =~= xs);
    } else {
        lemma_with_items_concat(acc, xs, ys.drop_last());
        assert((xs + ys).drop_last() =~= xs + ys.drop_last());
        assert((xs + ys).last() == ys.last());
    }
}

/// No element of `s` appears twice.
pub open spec fn no_duplicates(s: Seq<Seq<char>>) -> bool {
    forall|i: int, j: int| 0 <= i < j < s.len() ==> s[i] != s[j]
}

/// Adding items in order of first use never repeats one: the imports and
/// references of a declaration behave as sets.
pub proof fn lemma_with_items_no_duplicates(acc: Seq<Seq<char>>, xs: Seq<Seq<char>>)
    requires
        no_duplicates(acc),
    ensures
        no_duplicates(with_items(acc, xs)),
        forall|k: int| 0 <= k < xs.len() ==> with_items(acc, xs).contains(#[trigger] xs[k]),
    decreases xs.len(),
{
    if xs.len() > 0 {
        let prefix = xs.drop_last();
        lemma_with_items_no_duplicates(acc, prefix);
        let a = with_items(acc, prefix);
        let x = xs.last();
        if !a.contains(x) {
            assert forall|i: int, j: int| 0 <= i < j < a.push(x).len() implies a.push(x)[i] != a.push(
                x,
            )[j] by {
                if j == a.len() {
                    assert(a.push(x)[i] == a[i]);
                }
            }
            assert(a.push(x)[a.len() as int] == x);
        }
        assert forall|k: int| 0 <= k < xs.len() implies with_items(acc, xs).contains(
            #[trigger] xs[k],
        ) by {
            if k < xs.len() - 1 {
                assert(prefix[k] == xs[k]);
                let m = choose|m: int| 0 <= m < a.len() && a[m] == xs[k];
                if !a.contains(x) {
                    assert(a.push(x)[m] == xs[k]);
                }
            } else if !a.contains(x) {
                assert(a.push(x)[a.len() as int] == x);
            }
        }
    }
}

/// The header line importing `path`.
pub open spec fn import_line(path: Seq<char>) -> Seq<char> {
    "use "@ + path + ";\n"@
}

/// The header line referring to the sibling declaration `name`.
pub open spec fn dependency_line(name: Seq<char>) -> Seq<char> {
    "use super::"@ + name + ";\n"@
}

/// The import lines for `paths`, in order.
pub open spec fn import_lines(paths: Seq<Seq<char>>) -> Seq<char>
    decreases paths.len(),
{
    if paths.len() == 0 {
        Seq::empty()
    } else {
        import_lines(paths.drop_last()) + import_line(paths.last())
    }
}

/// The reference lines for `names`, in order.
pub open spec fn dependency_lines(names: Seq<Seq<char>>) -> Seq<char>
    decreases names.len(),
{
    if names.len() == 0 {
        Seq::empty()
    } else {
        dependency_lines(names.drop_last()) + dependency_line(names.last())
    }
}

/// The header block: imports, then references, then a blank line if
/// either is present.
pub open spec fn header(imports: Seq<Seq<char>>, dependencies: Seq<Seq<char>>) -> Seq<char> {
    import_lines(imports) + dependency_lines(dependencies) + if imports.len() > 0
        || dependencies.len() > 0 {
        "\n"@
    } else {
        Seq::empty()
    }
}

/// The views of a vector of strings.
pub open spec fn views(v: Seq<String>) -> Seq<Seq<char>> {
    v.map_values(|s: String| s@)
}

/// A declaration being generated.
pub struct Snippet {
    pub id: String,
    pub imports: Vec<String>,
    pub code: String,
    pub dependencies: Vec<String>,
}

impl View for Snippet {
    type V = SnippetView;

    open spec fn view(&self) -> SnippetView {
        SnippetView {
            id: self.id@,
            code: self.code@,
            imports: views(self.imports@),
            dependencies: views(self.dependencies@),
        }
    }
}

/// Adds `item` to `v` unless an equal string is already there.
fn push_unique(v: &mut Vec<String>, item: &str)
    ensures
        views(final(v)@) == with_item(views(old(v)@), item@),
{
    let s = String::from_str(item);
    let mut i: usize = 0;
    while i < v.len()
        invariant
            i <= v@.len(),
            s@ == item@,
            forall|j: int| 0 <= j < i ==> v@[j]@ != item@,
        decreases v@.len() - i,
    {
        if v[i] == s {
            assert(views(v@)[i as int] == item@);
            return;
        }
        i = i + 1;
    }
    assert(!views(v@).contains(item@)) by {
        if views(v@).contains(item@) {
            let k = choose|k: int| 0 <= k < views(v@).len() && views(v@)[k] == item@;
            assert(v@[k]@ == item@);
        }
    }
    v.push(s);
    assert(views(v@) =~= with_item(views(old(v)@), item@));
}

impl Snippet {
    /// An empty snippet for the declaration `id`.
    pub fn new(id: String) -> (r: Snippet)
        ensures
            r@ == (SnippetView {
                id: id@,
                code: Seq::empty(),
                imports: Seq::empty(),
                dependencies: Seq::empty(),
            }),
    {
        let r = Snippet { id, imports: Vec::new(), code: String::new(), dependencies: Vec::new() };
        assert(views(r.imports@) =~= Seq::empty());
        assert(views(r.dependencies@) =~= Seq::empty());
        r
    }

    /// Records that the declaration needs the import `import`.
    pub fn add_import(&mut self, import: &str)
        ensures
            final(self)@ == (SnippetView { imports: with_item(old(self)@.imports, import@), ..old(self)@ }),
    {
        push_unique(&mut self.imports, import);
    }

    /// Records that the declaration refers to the sibling declaration `dependency`.
    pub fn add_dependency(&mut self, dependency: &str)
        ensures
            final(self)@ == (SnippetView {
                dependencies: with_item(old(self)@.dependencies, dependency@),
                ..old(self)@
            }),
    {
        push_unique(&mut self.dependencies, dependency);
    }

    /// Appends `text` to the body.
    pub fn push_code(&mut self, text: &str)
        ensures
            final(self)@ == (SnippetView { code: old(self)@.code + text@, ..old(self)@ }),
    {
        self.code.append(text);
    }

    /// Puts the header block (imports, then references to sibling
    /// declarations, then a blank line if there are any) in front of the
    /// body. Meant to be called once, when the declaration is complete.
    pub fn finalize(&mut self)
        ensures
            final(self)@ == (SnippetView {
                code: header(old(self)@.imports, old(self)@.dependencies) + old(self)@.code,
                ..old(self)@
            }),
    {
        let ghost imports = views(self.imports@);
        let ghost deps = views(self.dependencies@);
        let mut final_code = String::new();
        let mut i: usize = 0;
        while i < self.imports.len()
            invariant
                i <= self.imports@.len(),
                imports == views(self.imports@),
                final_code@ == import_lines(imports.subrange(0, i as int)),
            decreases self.imports@.len() - i,
        {
            assert(imports.subrange(0, i + 1).drop_last() =~= imports.subrange(0, i as int));
            final_code.append("use ");
            final_code.append(self.imports[i].as_str());
            final_code.append(";\n");
            i = i + 1;
        }
        assert(imports.subrange(0, i as int) =~= imports);
        let ghost after_imports = final_code@;
        let mut j: usize = 0;
        while j < self.dependencies.len()
            invariant
                j <= self.dependencies@.len(),
                deps == views(self.dependencies@),
                final_code@ == after_imports + dependency_lines(deps.subrange(0, j as int)),
            decreases self.dependencies@.len() - j,
        {
            assert(deps.subrange(0, j + 1).drop_last() =~= deps.subrange(0, j as int));
            final_code.append("use super::");
            final_code.append(self.dependencies[j].as_str());
            final_code.append(";\n");
            j = j + 1;
        }
        assert(deps.subrange(0, j as int) =~= deps);
        if self.imports.len() > 0 || self.dependencies.len() > 0 {
            final_code.append("\n");
        }
        final_code.append(self.code.as_str());
        self.code = final_code;
        assert(self.code@ =~= header(imports, deps) + old(self)@.code);
    }
}

} // verus!
