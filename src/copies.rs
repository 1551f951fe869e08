//! Copies of plain values that Verus can see are equal to what they copy.
use crate::anilist::{AnilistID, HexColor, ImageURL, TagID, URL};
use vstd::prelude::*;

verus! {

pub fn copy_string(s: &String) -> (r: String)
    ensures
        r == *s,
{
    s.clone()
}

pub fn copy_opt_string(s: &Option<String>) -> (r: Option<String>)
    ensures
        r == *s,
{
    match s {
        Some(v) => Some(v.clone()),
        None => None,
    }
}

pub fn copy_strings(v: &Vec<String>) -> (r: Vec<String>)
    ensures
        r@ == v@,
{
    let mut r: Vec<String> = Vec::new();
    let mut i: usize = 0;
    while i < v.len()
        invariant
            i <= v.len(),
            r@ == v@.subrange(0, i as int),
        decreases v.len() - i,
    {
        r.push(v[i].clone());
        i = i + 1;
        assert(r@ =~= v@.subrange(0, i as int));
    }
    assert(v@.subrange(0, v.len() as int) =~= v@);
    r
}

pub fn copy_opt_strings(v: &Option<Vec<String>>) -> (r: Option<Vec<String>>)
    ensures
        r matches Some(x) ==> v matches Some(y) && x@ == y@,
        r is None <==> v is None,
{
    match v {
        Some(x) => Some(copy_strings(x)),
        None => None,
    }
}

pub fn copy_ints(v: &Vec<i32>) -> (r: Vec<i32>)
    ensures
        r@ == v@,
{
    let mut r: Vec<i32> = Vec::new();
    let mut i: usize = 0;
    while i < v.len()
        invariant
            i <= v.len(),
            r@ == v@.subrange(0, i as int),
        decreases v.len() - i,
    {
        r.push(v[i]);
        i = i + 1;
        assert(r@ =~= v@.subrange(0, i as int));
    }
    assert(v@.subrange(0, v.len() as int) =~= v@);
    r
}

pub fn copy_opt_ints(v: &Option<Vec<i32>>) -> (r: Option<Vec<i32>>)
    ensures
        r matches Some(x) ==> v matches Some(y) && x@ == y@,
        r is None <==> v is None,
{
    match v {
        Some(x) => Some(copy_ints(x)),
        None => None,
    }
}

pub fn copy_url(u: &URL) -> (r: URL)
    ensures
        r == *u,
{
    URL(u.0.clone())
}

pub fn copy_image(u: &ImageURL) -> (r: ImageURL)
    ensures
        r == *u,
{
    ImageURL(copy_url(&u.0))
}

pub fn copy_opt_image(u: &Option<ImageURL>) -> (r: Option<ImageURL>)
    ensures
        r == *u,
{
    match u {
        Some(x) => Some(copy_image(x)),
        None => None,
    }
}

pub fn copy_opt_color(c: &Option<HexColor>) -> (r: Option<HexColor>)
    ensures
        r == *c,
{
    match c {
        Some(x) => Some(HexColor(x.0.clone())),
        None => None,
    }
}

pub fn copy_opt_urls(v: &Option<Vec<Option<URL>>>) -> (r: Option<Vec<Option<URL>>>)
    ensures
        r matches Some(x) ==> v matches Some(y) && x@ == y@,
        r is None <==> v is None,
{
    match v {
        Some(x) => {
            let mut r: Vec<Option<URL>> = Vec::new();
            let mut i: usize = 0;
            while i < x.len()
                invariant
                    i <= x.len(),
                    r@ == x@.subrange(0, i as int),
                decreases x.len() - i,
            {
                let u = match &x[i] {
                    Some(u) => Some(copy_url(u)),
                    None => None,
                };
                r.push(u);
                i = i + 1;
                assert(r@ =~= x@.subrange(0, i as int));
            }
            assert(x@.subrange(0, x.len() as int) =~= x@);
            Some(r)
        },
        None => None,
    }
}

pub fn copy_opt_tags(v: &Option<Vec<TagID>>) -> (r: Option<Vec<TagID>>)
    ensures
        r matches Some(x) ==> v matches Some(y) && x@ == y@,
        r is None <==> v is None,
{
    match v {
        Some(x) => {
            let mut r: Vec<TagID> = Vec::new();
            let mut i: usize = 0;
            while i < x.len()
                invariant
                    i <= x.len(),
                    r@ == x@.subrange(0, i as int),
                decreases x.len() - i,
            {
                r.push(TagID(x[i].0));
                i = i + 1;
                assert(r@ =~= x@.subrange(0, i as int));
            }
            assert(x@.subrange(0, x.len() as int) =~= x@);
            Some(r)
        },
        None => None,
    }
}

pub fn copy_opt_id(v: &Option<AnilistID>) -> (r: Option<AnilistID>)
    ensures
        r == *v,
{
    match v {
        Some(x) => Some(AnilistID(x.0)),
        None => None,
    }
}

} // verus!
