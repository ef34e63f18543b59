//! The computing half of the catalog API: parsing the name listing the
//! server returns (names separated by newlines and commas) and building the
//! request URLs. The HTTP calls themselves happen outside the library and
//! hand their bodies in as plain text.

use vstd::prelude::*;

verus! {

/// The characters that separate names in the listing.
pub open spec fn is_name_sep(c: char) -> bool {
    c == '\n' || c == ','
}

/// Splitting a listing at every separator, keeping empty pieces: the empty
/// text is one empty piece.
pub open spec fn spec_split_names(s: Seq<char>) -> Seq<Seq<char>>
    decreases s.len(),
{
    if s.len() == 0 {
        seq![Seq::<char>::empty()]
    } else if is_name_sep(s.last()) {
        spec_split_names(s.drop_last()).push(Seq::<char>::empty())
    } else {
        let r = spec_split_names(s.drop_last());
        r.update(r.len() - 1, r.last().push(s.last()))
    }
}

pub proof fn lemma_split_names_nonempty(s: Seq<char>)
    ensures
        spec_split_names(s).len() >= 1,
    decreases s.len(),
{
    if s.len() > 0 {
        lemma_split_names_nonempty(s.drop_last());
    }
}

/// Joining names with a separator between each two.
pub open spec fn spec_join(names: Seq<Seq<char>>, sep: Seq<char>) -> Seq<char>
    decreases names.len(),
{
    if names.len() == 0 {
        Seq::empty()
    } else if names.len() == 1 {
        names[0]
    } else {
        spec_join(names.drop_last(), sep) + sep + names.last()
    }
}

/// Splits the body of the name listing into the template names, on
/// newlines and commas.
pub fn parse_template_names(body: &str) -> (r: Vec<String>)
    ensures
        r.deep_view() == spec_split_names(body@),
{
    let n = body.unicode_len();
    let mut out: Vec<String> = Vec::new();
    let mut start: usize = 0;
    let mut i: usize = 0;
    proof {
        assert(body@.subrange(0, 0) =~= Seq::<char>::empty());
        assert(out.deep_view() =~= Seq::<Seq<char>>::empty());
        assert(spec_split_names(body@.subrange(0, 0)) =~= out.deep_view().push(
            body@.subrange(0, 0),
        ));
    }
    while i < n
        invariant
            n == body@.len(),
            start <= i <= n,
            spec_split_names(body@.subrange(0, i as int)) =~= out.deep_view().push(
                body@.subrange(start as int, i as int),
            ),
        decreases n - i,
    {
        let c = body.get_char(i);
        proof {
            assert(body@.subrange(0, i + 1).drop_last() =~= body@.subrange(0, i as int));
            assert(body@.subrange(0, i + 1).last() == body@[i as int]);
            lemma_split_names_nonempty(body@.subrange(0, i as int));
        }
        if c == '\n' || c == ',' {
            let piece = body.substring_char(start, i);
            out.push(String::from_str(piece));
            proof {
                assert(spec_split_names(body@.subrange(0, i + 1)) =~= out.deep_view().push(
                    Seq::<char>::empty(),
                ));
                assert(body@.subrange(i + 1, i + 1) =~= Seq::<char>::empty());
            }
            start = i + 1;
        } else {
            proof {
                let prev = out.deep_view().push(body@.subrange(start as int, i as int));
                assert(prev.last() == body@.subrange(start as int, i as int));
                assert(body@.subrange(start as int, i as int).push(body@[i as int]) =~= body@
                    .subrange(start as int, i + 1));
                assert(prev.update(prev.len() - 1, body@.subrange(start as int, i + 1)) =~= out
                    .deep_view().push(body@.subrange(start as int, i + 1)));
            }
        }
        i = i + 1;
    }
    let piece = body.substring_char(start, n);
    out.push(String::from_str(piece));
    proof {
        assert(body@.subrange(0, n as int) =~= body@);
        assert(out.deep_view() =~= spec_split_names(body@));
    }
    out
}

/// Joins names with `sep` between each two.
pub fn join_names(names: &Vec<String>, sep: &str) -> (r: String)
    ensures
        r@ == spec_join(names.deep_view(), sep@),
{
    let mut out = String::new();
    let mut i: usize = 0;
    while i < names.len()
        invariant
            i <= names.len(),
            out@ =~= spec_join(names.deep_view().subrange(0, i as int), sep@),
        decreases names.len() - i,
    {
        proof {
            assert(names.deep_view().subrange(0, i + 1).drop_last() =~= names.deep_view().subrange(
                0,
                i as int,
            ));
            assert(names.deep_view().subrange(0, i + 1).last() == names.deep_view()[i as int]);
        }
        if i > 0 {
            out.append(sep);
        }
        out.append(names[i].as_str());
        i = i + 1;
    }
    proof {
        assert(names.deep_view().subrange(0, names.deep_view().len() as int) =~= names.deep_view());
    }
    out
}

/// The base URL of the template catalog.
pub fn api_url() -> (r: &'static str)
    ensures
        r@ == "https://www.toptal.com/developers/gitignore/api"@,
{
    "https://www.toptal.com/developers/gitignore/api"
}

/// The URL of the name listing.
pub fn list_url() -> (r: String)
    ensures
        r@ == "https://www.toptal.com/developers/gitignore/api"@ + "/list"@,
{
    String::from_str(api_url()).concat("/list")
}

/// The URL that merges the given templates: the base URL, a slash, and the
/// names joined by commas.
pub fn template_url(names: &Vec<String>) -> (r: String)
    ensures
        r@ == "https://www.toptal.com/developers/gitignore/api"@ + "/"@ + spec_join(
            names.deep_view(),
            ","@,
        ),
{
    let joined = join_names(names, ",");
    String::from_str(api_url()).concat("/").concat(joined.as_str())
}

} // verus!
