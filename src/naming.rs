use vstd::prelude::*;
use vstd::string::StringExecFns;

verus! {

/// Path of the filler file that carries `token`, in the working directory.
pub open spec fn filler_path_text(token: Seq<char>) -> Seq<char> {
    "./"@ + token + "_filler.txt"@
}

/// A lowercase hexadecimal digit.
pub open spec fn is_lower_hex(c: char) -> bool {
    ('0' <= c && c <= '9') || ('a' <= c && c <= 'f')
}

/// Text in the hyphenated form of a UUID: 32 lowercase hexadecimal digits in
/// groups of 8, 4, 4, 4 and 12, joined by hyphens.
pub open spec fn is_hyphenated_uuid(t: Seq<char>) -> bool {
    &&& t.len() == 36
    &&& forall|i: int|
        0 <= i < 36 ==> if i == 8 || i == 13 || i == 18 || i == 23 {
            #[trigger] t[i] == '-'
        } else {
            is_lower_hex(t[i])
        }
}

/// Relies on uuid's `Uuid::new_v4` and its `Display`, which writes the
/// hyphenated lowercase form: a fresh random identifier.
#[verifier::external_body]
fn random_token() -> (r: String)
    ensures
        is_hyphenated_uuid(r@),
{
    uuid::Uuid::new_v4().to_string()
}

/// Path of the filler file for a given unique token.
pub fn filler_path_for(token: &str) -> (r: String)
    ensures
        r@ == filler_path_text(token@),
{
    let head = String::from_str("./");
    let with_token = head.concat(token);
    with_token.concat("_filler.txt")
}

/// A filler path that embeds a freshly drawn random token, so that it does not
/// collide with a filler file left over from an earlier run. The path names a
/// file directly in the working directory: no separator follows the leading `./`.
pub fn new_filler_path() -> (r: String)
    ensures
        exists|t: Seq<char>| is_hyphenated_uuid(t) && r@ == filler_path_text(t),
        r@.len() == 49,
        forall|i: int| 2 <= i < r@.len() ==> r@[i] != '/',
{
    let token = random_token();
    let r = filler_path_for(token.as_str());
    proof {
        let t = token@;
        reveal_strlit("./");
        reveal_strlit("_filler.txt");
        assert(is_hyphenated_uuid(t) && r@ == filler_path_text(t));
        assert forall|i: int| 2 <= i < r@.len() implies r@[i] != '/' by {
            if i < 38 {
                assert(r@[i] == t[i - 2]);
                if i - 2 == 8 || i - 2 == 13 || i - 2 == 18 || i - 2 == 23 {
                    assert(t[i - 2] == '-');
                } else {
                    assert(is_lower_hex(t[i - 2]));
                }
            } else {
                assert(r@[i] == "_filler.txt"@[i - 38]);
            }
        }
    }
    r
}

/// Two filler paths are equal only when their tokens are: distinct tokens
/// never collide on disk.
pub proof fn lemma_filler_path_injective(a: Seq<char>, b: Seq<char>)
    ensures
        filler_path_text(a) == filler_path_text(b) ==> a == b,
{
    if filler_path_text(a) == filler_path_text(b) {
        let pa = filler_path_text(a);
        let pb = filler_path_text(b);
        reveal_strlit("./");
        reveal_strlit("_filler.txt");
        assert("./"@.len() == 2);
        assert("_filler.txt"@.len() == 11);
        assert(pa.len() == a.len() + 13);
        assert(pb.len() == b.len() + 13);
        assert(a.len() == b.len());
        assert(a =~= pa.subrange(2, 2 + a.len() as int));
        assert(b =~= pb.subrange(2, 2 + b.len() as int));
    }
}

} // verus!
