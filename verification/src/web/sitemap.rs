//! `sitemap.xml` and `robots.txt`: the URLs they list and the text they are written as.

use vstd::prelude::*;

use crate::catalog::taxonomy::Category;
use crate::web::jsonld::absolute_url;

verus! {

/// XML text escape of one character of a `<loc>` value.
pub open spec fn xml_escape_char(c: char) -> Seq<char> {
    if c == '&' {
        "&amp;"@
    } else if c == '<' {
        "&lt;"@
    } else if c == '>' {
        "&gt;"@
    } else {
        seq![c]
    }
}

/// XML text escape of `s`: `&`, `<` and `>` become `&amp;`, `&lt;` and `&gt;`.
pub open spec fn xml_escape(s: Seq<char>) -> Seq<char>
    decreases s.len(),
{
    if s.len() == 0 {
        Seq::empty()
    } else {
        xml_escape(s.drop_last()) + xml_escape_char(s.last())
    }
}

/// Escaped text holds no `<` or `>`: a URL cannot open or close an element of the sitemap.
pub proof fn lemma_xml_escape_has_no_brackets(s: Seq<char>)
    ensures
        forall|i: int|
            0 <= i < xml_escape(s).len() ==> xml_escape(s)[i] != '<' && xml_escape(s)[i] != '>',
    decreases s.len(),
{
    reveal_strlit("&amp;");
    reveal_strlit("&lt;");
    reveal_strlit("&gt;");
    if s.len() > 0 {
        lemma_xml_escape_has_no_brackets(s.drop_last());
        let p = xml_escape(s.drop_last());
        let e = xml_escape_char(s.last());
        assert forall|i: int| 0 <= i < xml_escape(s).len() implies xml_escape(s)[i] != '<'
            && xml_escape(s)[i] != '>' by {
            if i < p.len() {
                assert(xml_escape(s)[i] == p[i]);
            } else {
                assert(xml_escape(s)[i] == e[i - p.len()]);
            }
        }
    }
}

/// Escapes the XML special characters of the text of a `<loc>` element.
pub fn escape_xml(s: &str) -> (r: String)
    ensures
        r@ == xml_escape(s@),
{
    let v = crate::text::chars_of(s);
    let mut r = String::new();
    let mut i: usize = 0;
    while i < v.len()
        invariant
            v@ == s@,
            i <= v@.len(),
            r@ == xml_escape(v@.take(i as int)),
        decreases v@.len() - i,
    {
        let c = v[i];
        assert(v@.take(i + 1).drop_last() =~= v@.take(i as int));
        if c == '&' {
            r.append("&amp;");
        } else if c == '<' {
            r.append("&lt;");
        } else if c == '>' {
            r.append("&gt;");
        } else {
            crate::text::push_char(&mut r, c);
        }
        i += 1;
    }
    assert(v@.take(v@.len() as int) =~= v@);
    r
}

/// Opening of the sitemap document.
pub open spec fn sitemap_head() -> Seq<char> {
    "<?xml version=\"1.0\" encoding=\"UTF-8\"?>\n<urlset xmlns=\"http://www.sitemaps.org/schemas/sitemap/0.9\">\n"@
}

/// The `<url>` entries of the first `i` locations.
pub open spec fn sitemap_entries(locs: Seq<String>, i: int) -> Seq<char>
    decreases i,
{
    if i <= 0 {
        Seq::empty()
    } else {
        sitemap_entries(locs, i - 1) + "  <url><loc>"@ + xml_escape(locs[i - 1]@)
            + "</loc></url>\n"@
    }
}

/// The sitemap document listing the given absolute URLs, in order.
pub fn sitemap_xml(locs: &[String]) -> (r: String)
    ensures
        r@ == sitemap_head() + sitemap_entries(locs@, locs@.len() as int) + "</urlset>\n"@,
{
    let mut xml = String::new();
    xml.append(
        "<?xml version=\"1.0\" encoding=\"UTF-8\"?>\n<urlset xmlns=\"http://www.sitemaps.org/schemas/sitemap/0.9\">\n",
    );
    let mut i: usize = 0;
    while i < locs.len()
        invariant
            i <= locs@.len(),
            xml@ == sitemap_head() + sitemap_entries(locs@, i as int),
        decreases locs@.len() - i,
    {
        let ghost before = xml@;
        xml.append("  <url><loc>");
        let e = escape_xml(locs[i].as_str());
        xml.append(e.as_str());
        xml.append("</loc></url>\n");
        assert(xml@ =~= sitemap_head() + sitemap_entries(locs@, i + 1));
        i += 1;
    }
    xml.append("</urlset>\n");
    xml
}

/// The absolute URL of a category page.
pub fn category_loc(base_url: &str, slug: &str) -> (r: String)
    ensures
        r@ == base_url@ + "/c/"@ + slug@,
{
    let mut path = String::new();
    path.append("/c/");
    path.append(slug);
    let r = absolute_url(base_url, path.as_str());
    assert(r@ =~= base_url@ + "/c/"@ + slug@);
    r
}

/// The absolute URL of a product page.
pub fn product_loc(base_url: &str, slug: &str) -> (r: String)
    ensures
        r@ == base_url@ + "/p/"@ + slug@,
{
    let mut path = String::new();
    path.append("/p/");
    path.append(slug);
    let r = absolute_url(base_url, path.as_str());
    assert(r@ =~= base_url@ + "/p/"@ + slug@);
    r
}

/// After a page of published products at `offset` with `n_items` items out of `total`, the
/// offset of the next page, or `None` when the walk is over: the page was empty, or the next
/// offset (saturating) reaches the total.
pub fn next_product_offset(offset: u32, limit: u32, n_items: usize, total: u64) -> (r: Option<
    u32,
>)
    ensures
        n_items == 0 ==> r is None,
        n_items > 0 ==> {
            let next = if offset + limit > u32::MAX { u32::MAX as int } else { offset + limit };
            if next >= total { r is None } else { r == Some(next as u32) }
        },
{
    if n_items == 0 {
        return None;
    }
    let next: u32 = if offset as u64 + limit as u64 > u32::MAX as u64 {
        u32::MAX
    } else {
        offset + limit
    };
    if next as u64 >= total {
        None
    } else {
        Some(next)
    }
}

/// The `robots.txt` body: everything allowed, and the sitemap's absolute URL.
pub fn robots_txt(base_url: &str) -> (r: String)
    ensures
        r@ == "User-agent: *\nAllow: /\n\nSitemap: "@ + base_url@ + "/sitemap.xml"@ + "\n"@,
{
    let sitemap = absolute_url(base_url, "/sitemap.xml");
    let mut r = String::new();
    r.append("User-agent: *\nAllow: /\n\nSitemap: ");
    r.append(sitemap.as_str());
    r.append("\n");
    assert(r@ =~= "User-agent: *\nAllow: /\n\nSitemap: "@ + base_url@ + "/sitemap.xml"@ + "\n"@);
    r
}

/// The locations of categories, in order.
pub open spec fn category_locs(base_url: Seq<char>, cats: Seq<Category>) -> Seq<Seq<char>> {
    Seq::new(cats.len(), |i: int| base_url + "/c/"@ + cats[i].slug@)
}

/// The ids of categories, in order, as parents still to visit.
pub open spec fn category_parents(cats: Seq<Category>) -> Seq<Option<Seq<char>>> {
    Seq::new(cats.len(), |i: int| Some(cats[i].id@))
}

/// A breadth-first walk of the category tree, from the roots: the caller asks for the next
/// parent to list (`None` standing for the roots), lists its children and hands them back.
pub struct CategoryWalk {
    queue: Vec<Option<String>>,
    next: usize,
    paths: Vec<String>,
}

/// The state of a walk: the parents queued so far (visited ones included), how many have
/// been visited and the locations found so far.
pub struct WalkView {
    pub queue: Seq<Option<Seq<char>>>,
    pub next: nat,
    pub paths: Seq<Seq<char>>,
}

impl CategoryWalk {
    pub closed spec fn view(&self) -> WalkView {
        WalkView {
            queue: Seq::new(self.queue@.len(), |i: int| match self.queue@[i] {
                Some(s) => Some(s@),
                None => None,
            }),
            next: self.next as nat,
            paths: Seq::new(self.paths@.len(), |i: int| self.paths@[i]@),
        }
    }

    pub closed spec fn wf(&self) -> bool {
        self.next <= self.queue@.len()
    }

    /// A walk that starts at the roots.
    pub fn new() -> (w: CategoryWalk)
        ensures
            w.wf(),
            w.view().queue == seq![None::<Seq<char>>],
            w.view().next == 0,
            w.view().paths == Seq::<Seq<char>>::empty(),
    {
        let mut queue: Vec<Option<String>> = Vec::new();
        queue.push(None);
        let w = CategoryWalk { queue, next: 0, paths: Vec::new() };
        assert(w.view().queue =~= seq![None::<Seq<char>>]);
        assert(w.view().paths =~= Seq::<Seq<char>>::empty());
        w
    }

    /// The next parent whose children are to be listed, if any is left.
    pub fn next_parent(&mut self) -> (p: Option<Option<String>>)
        requires
            old(self).wf(),
        ensures
            final(self).wf(),
            final(self).view().queue == old(self).view().queue,
            final(self).view().paths == old(self).view().paths,
            old(self).view().next < old(self).view().queue.len() ==> {
                &&& final(self).view().next == old(self).view().next + 1
                &&& p matches Some(q) && (match q {
                    Some(s) => old(self).view().queue[old(self).view().next as int] == Some(s@),
                    None => old(self).view().queue[old(self).view().next as int] is None,
                })
            },
            old(self).view().next == old(self).view().queue.len() ==> p is None
                && final(self).view().next == old(self).view().next,
    {
        if self.next < self.queue.len() {
            let p = match &self.queue[self.next] {
                Some(s) => Some(s.clone()),
                None => None,
            };
            self.next = self.next + 1;
            Some(p)
        } else {
            None
        }
    }

    /// Takes the children of the parent just listed: each gets its location and is queued as
    /// a parent, in the order given.
    pub fn add_children(&mut self, base_url: &str, children: &[Category])
        requires
            old(self).wf(),
        ensures
            final(self).wf(),
            final(self).view().next == old(self).view().next,
            final(self).view().queue == old(self).view().queue + category_parents(children@),
            final(self).view().paths == old(self).view().paths + category_locs(base_url@, children@),
    {
        let ghost q0 = self.view().queue;
        let ghost p0 = self.view().paths;
        let mut i: usize = 0;
        while i < children.len()
            invariant
                self.wf(),
                i <= children@.len(),
                self.view().next == old(self).view().next,
                q0 == old(self).view().queue,
                p0 == old(self).view().paths,
                self.view().queue == q0 + category_parents(children@.take(i as int)),
                self.view().paths == p0 + category_locs(base_url@, children@.take(i as int)),
            decreases children@.len() - i,
        {
            let loc = category_loc(base_url, children[i].slug.as_str());
            let ghost qb = self.view().queue;
            let ghost pb = self.view().paths;
            self.paths.push(loc);
            self.queue.push(Some(children[i].id.clone()));
            proof {
                assert(self.view().queue =~= qb.push(Some(children@[i as int].id@)));
                assert(self.view().paths =~= pb.push(base_url@ + "/c/"@ + children@[i as int].slug@));
                assert(category_parents(children@.take(i + 1)) =~= category_parents(children@.take(i as int)).push(Some(children@[i as int].id@)));
                assert(category_locs(base_url@, children@.take(i + 1)) =~= category_locs(base_url@, children@.take(i as int)).push(base_url@ + "/c/"@ + children@[i as int].slug@));
            }
            i += 1;
        }
        assert(children@.take(children@.len() as int) =~= children@);
    }

    /// The locations found, in the order of the walk.
    pub fn into_paths(self) -> (r: Vec<String>)
        ensures
            Seq::new(r@.len(), |i: int| r@[i]@) == self.view().paths,
    {
        let r = self.paths;
        assert(Seq::new(r@.len(), |i: int| r@[i]@) =~= self.view().paths);
        r
    }
}

} // verus!
