//! The sitemap: the home page, the fixed pages, every active clerk's
//! profile and every blog post, in the site's language. Routes are written
//! in Portuguese for `PT` and in English otherwise.

use vstd::prelude::*;
use crate::text::text_eq;

verus! {

/// How important a page is; the sitemap writes the home page at 1.00, the
/// fixed pages at 0.80, profiles at 0.75 and posts at 0.65.
#[derive(Clone, Copy, Debug, PartialEq, Eq, Structural)]
pub enum PriorityTier {
    Home,
    Fixed,
    Profile,
    Post,
}

/// One page of the sitemap.
#[derive(Debug)]
pub struct SitemapEntry {
    pub loc: String,
    pub tier: PriorityTier,
}

pub open spec fn fixed_routes_spec(portuguese: bool) -> Seq<Seq<char>> {
    if portuguese {
        seq![
            "cadastre-se"@,
            "entrar"@,
            "comprar-creditos"@,
            "tarologos"@,
            "perguntas-frequentes"@,
            "quem-somos"@,
            "artigos"@,
            "depoimentos"@,
            "politica-de-privacidade"@,
            "contato"@,
        ]
    } else {
        seq![
            "register"@,
            "login"@,
            "buy-credits"@,
            "tarologists"@,
            "frequently-asked-question"@,
            "about-us"@,
            "blog"@,
            "testimonials"@,
            "privacy-policy"@,
            "contact"@,
        ]
    }
}

/// The path segment under which profiles are linked.
pub open spec fn profile_term_spec(portuguese: bool) -> Seq<char> {
    if portuguese { "tarologo"@ } else { "tarologist"@ }
}

/// The path segment under which posts are linked.
pub open spec fn post_term_spec(portuguese: bool) -> Seq<char> {
    if portuguese { "artigos"@ } else { "blog-post"@ }
}

/// `website/item` for each item, all of one tier.
pub open spec fn entries_under(prefix: Seq<char>, items: Seq<Seq<char>>, tier: PriorityTier) -> Seq<(Seq<char>, PriorityTier)> {
    items.map_values(|item: Seq<char>| (prefix + item, tier))
}

/// The pages of the sitemap, in order: home, fixed pages, profiles, posts.
pub open spec fn sitemap_spec(
    website: Seq<char>,
    portuguese: bool,
    profiles: Seq<Seq<char>>,
    posts: Seq<Seq<char>>,
) -> Seq<(Seq<char>, PriorityTier)> {
    seq![(website, PriorityTier::Home)]
        + entries_under(website + "/"@, fixed_routes_spec(portuguese), PriorityTier::Fixed)
        + entries_under(website + "/"@ + profile_term_spec(portuguese) + "/"@, profiles, PriorityTier::Profile)
        + entries_under(website + "/"@ + post_term_spec(portuguese) + "/"@, posts, PriorityTier::Post)
}

pub open spec fn string_views(v: Seq<String>) -> Seq<Seq<char>> {
    v.map_values(|s: String| s@)
}

pub open spec fn entry_views(v: Seq<SitemapEntry>) -> Seq<(Seq<char>, PriorityTier)> {
    v.map_values(|e: SitemapEntry| (e.loc@, e.tier))
}

fn fixed_routes(portuguese: bool) -> (res: Vec<String>)
    ensures
        string_views(res@) == fixed_routes_spec(portuguese),
{
    let names: [&str; 10] = if portuguese {
        [
            "cadastre-se",
            "entrar",
            "comprar-creditos",
            "tarologos",
            "perguntas-frequentes",
            "quem-somos",
            "artigos",
            "depoimentos",
            "politica-de-privacidade",
            "contato",
        ]
    } else {
        [
            "register",
            "login",
            "buy-credits",
            "tarologists",
            "frequently-asked-question",
            "about-us",
            "blog",
            "testimonials",
            "privacy-policy",
            "contact",
        ]
    };
    let mut res: Vec<String> = Vec::new();
    let mut i: usize = 0;
    while i < 10
        invariant
            0 <= i <= 10,
            res@.len() == i,
            forall|k: int| 0 <= k < i ==> #[trigger] res@[k]@ == names@[k]@,
        decreases 10 - i,
    {
        res.push(String::from_str(names[i]));
        i = i + 1;
    }
    assert(string_views(res@) =~= fixed_routes_spec(portuguese));
    res
}

fn push_entries(entries: &mut Vec<SitemapEntry>, prefix: &str, items: &Vec<String>, tier: PriorityTier)
    ensures
        entry_views(final(entries)@) == entry_views(old(entries)@) + entries_under(
            prefix@,
            string_views(items@),
            tier,
        ),
{
    let ghost start = entry_views(entries@);
    let mut i: usize = 0;
    while i < items.len()
        invariant
            i <= items.len(),
            entry_views(entries@) == start + entries_under(
                prefix@,
                string_views(items@.take(i as int)),
                tier,
            ),
        decreases items.len() - i,
    {
        let mut loc = String::from_str(prefix);
        loc.append(items[i].as_str());
        let ghost before = entries@;
        entries.push(SitemapEntry { loc, tier });
        proof {
            assert(entries@.drop_last() == before);
            assert(entry_views(entries@) =~= entry_views(before).push((loc@, tier)));
            assert(string_views(items@.take(i + 1)) =~= string_views(items@.take(i as int)).push(
                items@[i as int]@,
            ));
            assert(entries_under(prefix@, string_views(items@.take(i + 1)), tier)
                =~= entries_under(prefix@, string_views(items@.take(i as int)), tier).push(
                (prefix@ + items@[i as int]@, tier),
            ));
        }
        i = i + 1;
    }
    assert(items@.take(items.len() as int) =~= items@);
}

/// The pages of the sitemap for `website` in language `lang`, given the
/// slugs of the active clerks and of the posts.
pub fn sitemap_entries(
    website: &str,
    lang: &str,
    profile_slugs: &Vec<String>,
    post_slugs: &Vec<String>,
) -> (res: Vec<SitemapEntry>)
    ensures
        entry_views(res@) == sitemap_spec(
            website@,
            lang@ == "PT"@,
            string_views(profile_slugs@),
            string_views(post_slugs@),
        ),
{
    let portuguese = text_eq(lang, "PT");
    let mut entries: Vec<SitemapEntry> = Vec::new();
    entries.push(SitemapEntry { loc: String::from_str(website), tier: PriorityTier::Home });
    assert(entry_views(entries@) =~= seq![(website@, PriorityTier::Home)]);
    let mut prefix = String::from_str(website);
    prefix.append("/");
    let fixed = fixed_routes(portuguese);
    push_entries(&mut entries, prefix.as_str(), &fixed, PriorityTier::Fixed);
    let mut profile_prefix = String::from_str(website);
    profile_prefix.append("/");
    if portuguese {
        profile_prefix.append("tarologo");
    } else {
        profile_prefix.append("tarologist");
    }
    profile_prefix.append("/");
    push_entries(&mut entries, profile_prefix.as_str(), profile_slugs, PriorityTier::Profile);
    let mut post_prefix = String::from_str(website);
    post_prefix.append("/");
    if portuguese {
        post_prefix.append("artigos");
    } else {
        post_prefix.append("blog-post");
    }
    post_prefix.append("/");
    push_entries(&mut entries, post_prefix.as_str(), post_slugs, PriorityTier::Post);
    entries
}

/// Every page of the sitemap lies under the website, the home page comes
/// first and alone at the top tier, and there is one page per fixed route,
/// profile and post besides it.
pub proof fn lemma_sitemap_shape(
    website: Seq<char>,
    portuguese: bool,
    profiles: Seq<Seq<char>>,
    posts: Seq<Seq<char>>,
)
    ensures
        ({
            let s = sitemap_spec(website, portuguese, profiles, posts);
            &&& s.len() == 11 + profiles.len() + posts.len()
            &&& s[0] == (website, PriorityTier::Home)
            &&& forall|i: int| 0 <= i < s.len() ==> (#[trigger] s[i]).0.take(website.len() as int)
                == website
            &&& forall|i: int| 1 <= i < s.len() ==> (#[trigger] s[i]).1 != PriorityTier::Home
        }),
{
    let s = sitemap_spec(website, portuguese, profiles, posts);
    let a = entries_under(website + "/"@, fixed_routes_spec(portuguese), PriorityTier::Fixed);
    let b = entries_under(website + "/"@ + profile_term_spec(portuguese) + "/"@, profiles, PriorityTier::Profile);
    let c = entries_under(website + "/"@ + post_term_spec(portuguese) + "/"@, posts, PriorityTier::Post);
    assert(fixed_routes_spec(portuguese).len() == 10);
    assert forall|i: int| 0 <= i < s.len() implies (#[trigger] s[i]).0.take(website.len() as int)
        == website by {
        if i == 0 {
            assert(s[i].0 =~= website);
            assert(website.take(website.len() as int) =~= website);
        } else if i < 11 {
            assert(s[i] == a[i - 1]);
            let r = fixed_routes_spec(portuguese)[i - 1];
            assert((website + "/"@ + r).take(website.len() as int) =~= website);
        } else if i < 11 + profiles.len() {
            assert(s[i] == b[i - 11]);
            let r = profiles[i - 11];
            assert((website + "/"@ + profile_term_spec(portuguese) + "/"@ + r).take(
                website.len() as int,
            ) =~= website);
        } else {
            assert(s[i] == c[i - 11 - profiles.len()]);
            let r = posts[i - 11 - profiles.len()];
            assert((website + "/"@ + post_term_spec(portuguese) + "/"@ + r).take(
                website.len() as int,
            ) =~= website);
        }
    }
    assert forall|i: int| 1 <= i < s.len() implies (#[trigger] s[i]).1 != PriorityTier::Home by {
        if i < 11 {
            assert(s[i] == a[i - 1]);
        } else if i < 11 + profiles.len() {
            assert(s[i] == b[i - 11]);
        } else {
            assert(s[i] == c[i - 11 - profiles.len()]);
        }
    }
}

/// The fixed pages of each language are ten distinct routes: in Portuguese
/// the registration, login, credit purchase, tarot readers, FAQ, about,
/// articles (`artigos`), testimonials (`depoimentos`), privacy and contact
/// pages; in English the same pages under their English routes. So no two
/// fixed pages of a sitemap share a location, and none is the home page.
pub proof fn lemma_fixed_pages_distinct(
    website: Seq<char>,
    portuguese: bool,
    profiles: Seq<Seq<char>>,
    posts: Seq<Seq<char>>,
)
    ensures
        fixed_routes_spec(true).len() == 10,
        fixed_routes_spec(false).len() == 10,
        fixed_routes_spec(true).to_set() == set![
            "cadastre-se"@,
            "entrar"@,
            "comprar-creditos"@,
            "tarologos"@,
            "perguntas-frequentes"@,
            "quem-somos"@,
            "artigos"@,
            "depoimentos"@,
            "politica-de-privacidade"@,
            "contato"@,
        ],
        fixed_routes_spec(false).to_set() == set![
            "register"@,
            "login"@,
            "buy-credits"@,
            "tarologists"@,
            "frequently-asked-question"@,
            "about-us"@,
            "blog"@,
            "testimonials"@,
            "privacy-policy"@,
            "contact"@,
        ],
        forall|i: int, j: int|
            0 <= i < j < 10 ==> #[trigger] fixed_routes_spec(portuguese)[i] != #[trigger] fixed_routes_spec(
                portuguese,
            )[j],
        ({
            let s = sitemap_spec(website, portuguese, profiles, posts);
            forall|i: int, j: int| 0 <= i < j < 11 ==> (#[trigger] s[i]).0 != (#[trigger] s[j]).0
        }),
{
    lemma_fixed_routes_distinct(true);
    lemma_fixed_routes_distinct(false);
    let pt = fixed_routes_spec(true);
    let en = fixed_routes_spec(false);
    assert(pt.to_set() =~= set![
        "cadastre-se"@,
        "entrar"@,
        "comprar-creditos"@,
        "tarologos"@,
        "perguntas-frequentes"@,
        "quem-somos"@,
        "artigos"@,
        "depoimentos"@,
        "politica-de-privacidade"@,
        "contato"@,
    ]) by {
        assert forall|x: Seq<char>| pt.to_set().contains(x) implies pt.contains(x) by {}
        assert(pt[0] == "cadastre-se"@ && pt[1] == "entrar"@ && pt[2] == "comprar-creditos"@);
        assert(pt[3] == "tarologos"@ && pt[4] == "perguntas-frequentes"@ && pt[5] == "quem-somos"@);
        assert(pt[6] == "artigos"@ && pt[7] == "depoimentos"@ && pt[8] == "politica-de-privacidade"@);
        assert(pt[9] == "contato"@);
    }
    assert(en.to_set() =~= set![
        "register"@,
        "login"@,
        "buy-credits"@,
        "tarologists"@,
        "frequently-asked-question"@,
        "about-us"@,
        "blog"@,
        "testimonials"@,
        "privacy-policy"@,
        "contact"@,
    ]) by {
        assert forall|x: Seq<char>| en.to_set().contains(x) implies en.contains(x) by {}
        assert(en[0] == "register"@ && en[1] == "login"@ && en[2] == "buy-credits"@);
        assert(en[3] == "tarologists"@ && en[4] == "frequently-asked-question"@ && en[5] == "about-us"@);
        assert(en[6] == "blog"@ && en[7] == "testimonials"@ && en[8] == "privacy-policy"@);
        assert(en[9] == "contact"@);
    }
    reveal_strlit("/");
    let s = sitemap_spec(website, portuguese, profiles, posts);
    let prefix = website + "/"@;
    let routes = fixed_routes_spec(portuguese);
    let a = entries_under(prefix, routes, PriorityTier::Fixed);
    assert forall|i: int, j: int| 0 <= i < j < 11 implies (#[trigger] s[i]).0 != (#[trigger] s[j]).0 by {
        assert(s[j] == a[j - 1]);
        assert(s[j].0 == prefix + routes[j - 1]);
        if i == 0 {
            assert(s[i].0 == website);
            assert(s[j].0.len() > website.len());
        } else {
            assert(s[i] == a[i - 1]);
            assert(s[i].0 == prefix + routes[i - 1]);
            if s[i].0 == s[j].0 {
                assert((prefix + routes[i - 1]).subrange(prefix.len() as int, s[i].0.len() as int)
                    =~= routes[i - 1]);
                assert((prefix + routes[j - 1]).subrange(prefix.len() as int, s[j].0.len() as int)
                    =~= routes[j - 1]);
            }
        }
    }
}

/// The fixed routes of one language are pairwise distinct.
proof fn lemma_fixed_routes_distinct(portuguese: bool)
    ensures
        fixed_routes_spec(portuguese).len() == 10,
        forall|i: int, j: int|
            0 <= i < j < 10 ==> #[trigger] fixed_routes_spec(portuguese)[i] != #[trigger] fixed_routes_spec(
                portuguese,
            )[j],
{
    reveal_strlit("cadastre-se");
    reveal_strlit("entrar");
    reveal_strlit("comprar-creditos");
    reveal_strlit("tarologos");
    reveal_strlit("perguntas-frequentes");
    reveal_strlit("quem-somos");
    reveal_strlit("artigos");
    reveal_strlit("depoimentos");
    reveal_strlit("politica-de-privacidade");
    reveal_strlit("contato");
    reveal_strlit("register");
    reveal_strlit("login");
    reveal_strlit("buy-credits");
    reveal_strlit("tarologists");
    reveal_strlit("frequently-asked-question");
    reveal_strlit("about-us");
    reveal_strlit("blog");
    reveal_strlit("testimonials");
    reveal_strlit("privacy-policy");
    reveal_strlit("contact");
    let r = fixed_routes_spec(portuguese);
    assert forall|i: int, j: int| 0 <= i < j < 10 implies #[trigger] r[i] != #[trigger] r[j] by {
        if r[i] == r[j] {
            assert(r[i].len() == r[j].len());
            assert(r[i][0] == r[j][0]);
            assert(r[i][1] == r[j][1]);
        }
    }
}

} // verus!
