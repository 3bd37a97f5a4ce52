//! Frontend asset resolution: which embedded files a request path may
//! refer to.
//!
//! A request for `/dir/page` is served by the first of `dir/page`,
//! `dir/page.html` and `dir/page/index.html` that exists in the asset
//! directory. The shell owns the directory and the HTTP response; the
//! candidate paths and their order are decided here.

use vstd::prelude::*;

verus! {

/// The bytes of the `.html` suffix.
pub open spec fn html_suffix() -> Seq<u8> {
    seq![('.' as u8), ('h' as u8), ('t' as u8), ('m' as u8), ('l' as u8)]
}

/// The bytes of the `/index.html` suffix.
pub open spec fn index_suffix() -> Seq<u8> {
    seq![
        ('/' as u8),
        ('i' as u8),
        ('n' as u8),
        ('d' as u8),
        ('e' as u8),
        ('x' as u8),
        ('.' as u8),
        ('h' as u8),
        ('t' as u8),
        ('m' as u8),
        ('l' as u8),
    ]
}

/// Append every byte of `src` to `out`, in order.
fn push_bytes(out: &mut Vec<u8>, src: &[u8])
    ensures
        final(out)@ == old(out)@ + src@,
{
    let mut i: usize = 0;
    while i < src.len()
        invariant
            i <= src@.len(),
            out@ == old(out)@ + src@.subrange(0, i as int),
        decreases src@.len() - i,
    {
        out.push(src[i]);
        proof {
            assert(old(out)@ + src@.subrange(0, i as int) + seq![src@[i as int]] =~= old(out)@
                + src@.subrange(0, i + 1));
        }
        i += 1;
    }
    proof {
        assert(src@.subrange(0, src@.len() as int) =~= src@);
    }
}

/// Strip the leading slash of a request path: every route path starts
/// with one, and asset paths are stored without it.
pub fn strip_leading_slash(path: &[u8]) -> (rest: &[u8])
    requires
        path@.len() > 0,
        path@[0] == ('/' as u8),
    ensures
        rest@ == path@.drop_first(),
{
    let rest = &path[1..path.len()];
    proof {
        assert(path@.subrange(1, path@.len() as int) =~= path@.drop_first());
    }
    rest
}

/// The asset paths a request path may refer to, in lookup order: the
/// path itself, the path with `.html`, and the path's directory index.
pub fn asset_candidates(path: &[u8]) -> (cands: Vec<Vec<u8>>)
    ensures
        cands@.len() == 3,
        cands@[0]@ == path@,
        cands@[1]@ == path@ + html_suffix(),
        cands@[2]@ == path@ + index_suffix(),
{
    let mut plain: Vec<u8> = Vec::new();
    push_bytes(&mut plain, path);

    let mut html: Vec<u8> = Vec::new();
    push_bytes(&mut html, path);
    html.push('.' as u8);
    html.push('h' as u8);
    html.push('t' as u8);
    html.push('m' as u8);
    html.push('l' as u8);

    let mut index: Vec<u8> = Vec::new();
    push_bytes(&mut index, path);
    index.push('/' as u8);
    index.push('i' as u8);
    index.push('n' as u8);
    index.push('d' as u8);
    index.push('e' as u8);
    index.push('x' as u8);
    index.push('.' as u8);
    index.push('h' as u8);
    index.push('t' as u8);
    index.push('m' as u8);
    index.push('l' as u8);

    proof {
        assert(plain@ =~= Seq::<u8>::empty() + path@);
        assert(plain@ =~= path@);
        assert(html@ =~= path@ + html_suffix());
        assert(index@ =~= path@ + index_suffix());
    }
    let mut cands: Vec<Vec<u8>> = Vec::new();
    cands.push(plain);
    cands.push(html);
    cands.push(index);
    cands
}

} // verus!
