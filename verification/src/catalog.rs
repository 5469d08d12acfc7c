//! The catalogue of the university site: the links from the list of faculties to
//! their courses, and from each course to its groups.
use vstd::prelude::*;
use crate::page::{opt_view, strings_view};
use crate::scrape::{css_attrs, css_texts, select_attrs, select_texts};
use crate::text::{concat, trim, trim_seq};

verus! {

/// A link of the catalogue: its trimmed text and the absolute address it leads to.
#[derive(Clone, Debug)]
pub struct Link {
    pub text: String,
    pub url: String,
}

impl View for Link {
    type V = (Seq<char>, Seq<char>);

    open spec fn view(&self) -> (Seq<char>, Seq<char>) {
        (self.text@, self.url@)
    }
}

/// The texts of a sequence of links.
pub open spec fn links_view(ls: Seq<Link>) -> Seq<(Seq<char>, Seq<char>)> {
    ls.map_values(|l: Link| l@)
}

/// The address that the site's relative links start from.
pub open spec fn site_root() -> Seq<char> {
    "https://ssau.ru"@
}

/// The `href` of link `i`, empty where it has none.
pub open spec fn href_at(hrefs: Seq<Option<Seq<char>>>, i: int) -> Seq<char> {
    if 0 <= i < hrefs.len() && hrefs[i] is Some {
        hrefs[i]->0
    } else {
        Seq::<char>::empty()
    }
}

/// The links whose trimmed text is not empty, in order, each with the site root
/// put before its `href`.
pub open spec fn links_of(texts: Seq<Seq<char>>, hrefs: Seq<Option<Seq<char>>>) -> Seq<(Seq<char>, Seq<char>)>
    decreases texts.len(),
{
    if texts.len() == 0 {
        Seq::empty()
    } else {
        let i = texts.len() - 1;
        let rest = links_of(texts.drop_last(), hrefs);
        let name = trim_seq(texts[i]);
        if name.len() > 0 {
            rest.push((name, site_root() + href_at(hrefs, i)))
        } else {
            rest
        }
    }
}

/// The links of a page are exactly its elements whose trimmed text is not empty, in
/// the page's order: element `i` gives the link with that text and the site root put
/// before its own `href`, and no other element gives a link.
pub proof fn lemma_links_are_named_elements(texts: Seq<Seq<char>>, hrefs: Seq<Option<Seq<char>>>)
    ensures
        links_of(texts, hrefs) == Seq::new(
            texts.len(),
            |i: int| (trim_seq(texts[i]), site_root() + href_at(hrefs, i)),
        ).filter(|l: (Seq<char>, Seq<char>)| l.0.len() > 0),
    decreases texts.len(),
{
    let all = Seq::new(texts.len(), |i: int| (trim_seq(texts[i]), site_root() + href_at(hrefs, i)));
    if texts.len() == 0 {
        assert(all =~= Seq::<(Seq<char>, Seq<char>)>::empty());
        reveal(Seq::filter);
    } else {
        let front = texts.drop_last();
        lemma_links_are_named_elements(front, hrefs);
        let prev = Seq::new(front.len(), |i: int| (trim_seq(front[i]), site_root() + href_at(hrefs, i)));
        assert(all =~= prev.push(all.last()));
        prev.lemma_filter_push(all.last(), |l: (Seq<char>, Seq<char>)| l.0.len() > 0);
    }
}

/// The links of a catalogue page: the texts and `href`s of the elements that
/// `selector` matches, or `None` where the selector does not parse.
pub open spec fn catalogue_links(html: Seq<char>, selector: Seq<char>) -> Option<Seq<(Seq<char>, Seq<char>)>> {
    match (css_texts(html, selector), css_attrs(html, selector, "href"@)) {
        (Some(texts), Some(hrefs)) => Some(links_of(texts, hrefs)),
        _ => None,
    }
}

/// The links of the elements with texts `texts` and `href`s `hrefs` (see [`links_of`]).
pub fn links_in(texts: &Vec<String>, hrefs: &Vec<Option<String>>) -> (links: Vec<Link>)
    ensures
        links_view(links@) == links_of(
            strings_view(texts@),
            hrefs@.map_values(|o: Option<String>| opt_view(o)),
        ),
{
    let ghost tv = strings_view(texts@);
    let ghost hv = hrefs@.map_values(|o: Option<String>| opt_view(o));
    let mut links: Vec<Link> = Vec::new();
    let mut i: usize = 0;
    while i < texts.len()
        invariant
            i <= texts@.len(),
            tv == strings_view(texts@),
            hv == hrefs@.map_values(|o: Option<String>| opt_view(o)),
            links_view(links@) == links_of(tv.take(i as int), hv),
        decreases texts@.len() - i,
    {
        assert(tv.take(i + 1).drop_last() =~= tv.take(i as int));
        let name = trim(texts[i].as_str());
        if !name.as_str().is_empty() {
            let href: &str = if i < hrefs.len() {
                match &hrefs[i] {
                    Some(h) => h.as_str(),
                    None => "",
                }
            } else {
                ""
            };
            assert(href@ == href_at(hv, i as int)) by {
                reveal_strlit("");
                assert(""@ =~= Seq::<char>::empty());
            }
            let url = concat("https://ssau.ru", href);
            let l = Link { text: name, url };
            let ghost old_l = links@;
            links.push(l);
            assert(links_view(links@) =~= links_view(old_l).push(l@));
        }
        i += 1;
    }
    assert(tv.take(i as int) =~= tv);
    links
}

/// The catalogue links that `selector` finds on the page `html`.
pub fn scrape_links(html: &str, selector: &str) -> (r: Option<Vec<Link>>)
    ensures
        match r {
            Some(links) => catalogue_links(html@, selector@) == Some(links_view(links@)),
            None => catalogue_links(html@, selector@) is None,
        },
{
    let texts = select_texts(html, selector);
    let hrefs = select_attrs(html, selector, "href");
    match (texts, hrefs) {
        (Some(texts), Some(hrefs)) => Some(links_in(&texts, &hrefs)),
        _ => None,
    }
}

/// The links from the list of faculties to the faculties' pages.
pub fn faculty_links(html: &str) -> (r: Option<Vec<Link>>)
    ensures
        match r {
            Some(links) => catalogue_links(html@, ".faculties__item a"@) == Some(links_view(links@)),
            None => catalogue_links(html@, ".faculties__item a"@) is None,
        },
{
    scrape_links(html, ".faculties__item a")
}

/// The links from a faculty's page to its courses.
pub fn course_links(html: &str) -> (r: Option<Vec<Link>>)
    ensures
        match r {
            Some(links) => catalogue_links(html@, ".nav-course__item a"@) == Some(links_view(links@)),
            None => catalogue_links(html@, ".nav-course__item a"@) is None,
        },
{
    scrape_links(html, ".nav-course__item a")
}

/// The links from a course's page to its groups' timetables.
pub fn group_links(html: &str) -> (r: Option<Vec<Link>>)
    ensures
        match r {
            Some(links) => catalogue_links(html@, "a.group-catalog__group"@) == Some(links_view(links@)),
            None => catalogue_links(html@, "a.group-catalog__group"@) is None,
        },
{
    scrape_links(html, "a.group-catalog__group")
}

/// A group of the catalogue, as the table of faculties stores it.
#[derive(Clone, Debug)]
pub struct Faculty {
    pub name: String,
    pub course: String,
    pub group: String,
    pub url: String,
}

} // verus!
