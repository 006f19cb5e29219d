//! Native extension and layer name lists.
//!
//! Extension names travel as byte strings (they originate as C strings from
//! the two native subsystems). The compositor reports its required
//! extensions as one whitespace-separated byte string; the GPU backend
//! reports a list. The bridge splits, unions and filters these lists, and
//! always force-enables timeline-semaphore support, which the GPU backend
//! assumes unconditionally.

use vstd::prelude::*;

verus! {

/// ASCII whitespace: space, tab, line feed, form feed, carriage return.
pub open spec fn is_ascii_ws(b: u8) -> bool {
    b == 32 || b == 9 || b == 10 || b == 12 || b == 13
}

/// ASCII whitespace, executable form.
pub fn is_whitespace_byte(b: u8) -> (r: bool)
    ensures
        r == is_ascii_ws(b),
{
    b == 32 || b == 9 || b == 10 || b == 12 || b == 13
}

/// The tokens of `s`: its maximal runs of non-whitespace bytes, in order.
pub open spec fn split_ws_spec(s: Seq<u8>) -> Seq<Seq<u8>>
    decreases s.len(),
{
    if s.len() == 0 {
        Seq::empty()
    } else {
        let rest = split_ws_spec(s.drop_last());
        let c = s.last();
        if is_ascii_ws(c) {
            rest
        } else if s.len() >= 2 && !is_ascii_ws(s[s.len() - 2]) {
            rest.update(rest.len() - 1, rest.last().push(c))
        } else {
            rest.push(seq![c])
        }
    }
}

/// Law: every token the splitter yields is a nonempty run free of
/// whitespace; and a byte string ending in a non-whitespace byte yields at
/// least one token.
pub proof fn lemma_split_tokens_wellformed(s: Seq<u8>)
    ensures
        (s.len() > 0 && !is_ascii_ws(s.last())) ==> split_ws_spec(s).len() > 0,
        forall|i: int|
            0 <= i < split_ws_spec(s).len() ==> (#[trigger] split_ws_spec(s)[i]).len() > 0,
        forall|i: int, j: int|
            0 <= i < split_ws_spec(s).len() && 0 <= j < split_ws_spec(s)[i].len()
                ==> !is_ascii_ws(#[trigger] split_ws_spec(s)[i][j]),
    decreases s.len(),
{
    if s.len() > 0 {
        lemma_split_tokens_wellformed(s.drop_last());
        let rest = split_ws_spec(s.drop_last());
        let c = s.last();
        if is_ascii_ws(c) {
        } else if s.len() >= 2 && !is_ascii_ws(s[s.len() - 2]) {
            assert(s.drop_last().last() == s[s.len() - 2]);
            assert(rest.len() > 0);
            let out = rest.update(rest.len() - 1, rest.last().push(c));
            assert forall|i: int| 0 <= i < out.len() implies (#[trigger] out[i]).len() > 0 by {
                if i < rest.len() - 1 {
                    assert(out[i] == rest[i]);
                }
            }
            assert forall|i: int, j: int|
                0 <= i < out.len() && 0 <= j < out[i].len() implies !is_ascii_ws(
                #[trigger] out[i][j],
            ) by {
                if i < rest.len() - 1 {
                    assert(out[i] == rest[i]);
                } else {
                    assert(out[i] == rest.last().push(c));
                    if j < rest.last().len() {
                        assert(out[i][j] == rest.last()[j]);
                        assert(rest[rest.len() - 1] == rest.last());
                    }
                }
            }
        } else {
            let out = rest.push(seq![c]);
            assert forall|i: int, j: int|
                0 <= i < out.len() && 0 <= j < out[i].len() implies !is_ascii_ws(
                #[trigger] out[i][j],
            ) by {
                if i < rest.len() {
                    assert(out[i] == rest[i]);
                } else {
                    assert(out[i] == seq![c]);
                }
            }
        }
    }
}

/// Splits a whitespace-separated extension list into its names.
pub fn split_ascii_whitespace(s: &Vec<u8>) -> (tokens: Vec<Vec<u8>>)
    ensures
        tokens.deep_view() == split_ws_spec(s@),
{
    let mut tokens: Vec<Vec<u8>> = Vec::new();
    let mut in_token: bool = false;
    let mut i: usize = 0;
    proof {
        assert(s@.subrange(0, 0) =~= Seq::<u8>::empty());
        assert(tokens.deep_view() =~= Seq::<Seq<u8>>::empty());
    }
    while i < s.len()
        invariant
            i <= s@.len(),
            tokens.deep_view() == split_ws_spec(s@.subrange(0, i as int)),
            in_token == (i > 0 && !is_ascii_ws(s@[i as int - 1])),
            in_token ==> tokens@.len() > 0,
        decreases s@.len() - i,
    {
        let ghost prefix = s@.subrange(0, i as int);
        let ghost extended = s@.subrange(0, i as int + 1);
        proof {
            assert(extended.drop_last() =~= prefix);
            assert(extended.last() == s@[i as int]);
        }
        let c = s[i];
        if is_whitespace_byte(c) {
            in_token = false;
        } else if in_token {
            let ghost old_tokens = tokens.deep_view();
            let mut t = tokens.pop().unwrap();
            t.push(c);
            tokens.push(t);
            proof {
                assert(tokens.deep_view() =~~= old_tokens.update(
                    old_tokens.len() - 1,
                    old_tokens.last().push(c),
                ));
            }
        } else {
            let ghost old_tokens = tokens.deep_view();
            let mut t: Vec<u8> = Vec::new();
            t.push(c);
            tokens.push(t);
            proof {
                assert(t@ =~= seq![c]);
                assert(tokens.deep_view() =~~= old_tokens.push(seq![c]));
            }
            in_token = true;
        }
        i = i + 1;
    }
    proof {
        assert(s@.subrange(0, s@.len() as int) =~= s@);
    }
    tokens
}

/// A copy of a byte string.
pub fn clone_bytes(v: &Vec<u8>) -> (r: Vec<u8>)
    ensures
        r@ == v@,
{
    let mut r: Vec<u8> = Vec::new();
    let mut i: usize = 0;
    while i < v.len()
        invariant
            i <= v@.len(),
            r@ == v@.subrange(0, i as int),
        decreases v@.len() - i,
    {
        r.push(v[i]);
        proof {
            assert(v@.subrange(0, i as int + 1) =~= v@.subrange(0, i as int).push(v@[i as int]));
        }
        i = i + 1;
    }
    proof {
        assert(v@.subrange(0, v@.len() as int) =~= v@);
    }
    r
}

/// Whether two byte strings hold the same bytes.
pub fn bytes_eq(a: &Vec<u8>, b: &Vec<u8>) -> (r: bool)
    ensures
        r == (a@ == b@),
{
    if a.len() != b.len() {
        proof {
            assert(a@ != b@);
        }
        return false;
    }
    let mut i: usize = 0;
    while i < a.len()
        invariant
            i <= a@.len(),
            a@.len() == b@.len(),
            forall|j: int| 0 <= j < i ==> a@[j] == b@[j],
        decreases a@.len() - i,
    {
        if a[i] != b[i] {
            proof {
                assert(a@ != b@);
            }
            return false;
        }
        i = i + 1;
    }
    proof {
        assert(a@ =~= b@);
    }
    true
}

/// Whether `name` occurs in `list`.
pub fn contains_extension(list: &Vec<Vec<u8>>, name: &Vec<u8>) -> (r: bool)
    ensures
        r == list.deep_view().contains(name@),
{
    let mut i: usize = 0;
    while i < list.len()
        invariant
            i <= list@.len(),
            forall|j: int| 0 <= j < i ==> list.deep_view()[j] != name@,
        decreases list@.len() - i,
    {
        let hit = bytes_eq(&list[i], name);
        proof {
            assert(list.deep_view()[i as int] =~= list[i as int]@);
        }
        if hit {
            return true;
        }
        i = i + 1;
    }
    proof {
        assert(forall|j: int| 0 <= j < list.deep_view().len() ==> list.deep_view()[j] != name@);
    }
    false
}

/// The two subsystems' extension requirements, one after the other.
/// Duplicates are not an error: the native loader accepts a name twice.
pub fn union_extensions(a: &Vec<Vec<u8>>, b: &Vec<Vec<u8>>) -> (r: Vec<Vec<u8>>)
    ensures
        r.deep_view() == a.deep_view() + b.deep_view(),
{
    let mut r: Vec<Vec<u8>> = Vec::new();
    let mut i: usize = 0;
    while i < a.len()
        invariant
            i <= a@.len(),
            r.deep_view() =~= a.deep_view().subrange(0, i as int),
        decreases a@.len() - i,
    {
        let ghost old_r = r.deep_view();
        let c = clone_bytes(&a[i]);
        r.push(c);
        proof {
            assert(r.deep_view() =~~= old_r.push(a.deep_view()[i as int]));
            assert(old_r.push(a.deep_view()[i as int]) =~= a.deep_view().subrange(0, i as int + 1));
        }
        i = i + 1;
    }
    let mut k: usize = 0;
    while k < b.len()
        invariant
            k <= b@.len(),
            r.deep_view() =~= a.deep_view() + b.deep_view().subrange(0, k as int),
        decreases b@.len() - k,
    {
        let ghost old_r = r.deep_view();
        let c = clone_bytes(&b[k]);
        r.push(c);
        proof {
            assert(r.deep_view() =~~= old_r.push(b.deep_view()[k as int]));
            assert(old_r.push(b.deep_view()[k as int]) =~= a.deep_view() + b.deep_view().subrange(
                0,
                k as int + 1,
            ));
        }
        k = k + 1;
    }
    proof {
        assert(a.deep_view() + b.deep_view().subrange(0, b@.len() as int) =~= a.deep_view()
            + b.deep_view());
    }
    r
}

/// Law: the concatenated requirement list enables a name exactly when one of
/// the two subsystems requires it.
pub proof fn lemma_union_contains(a: Seq<Seq<u8>>, b: Seq<Seq<u8>>, x: Seq<u8>)
    ensures
        (a + b).contains(x) <==> (a.contains(x) || b.contains(x)),
{
    if (a + b).contains(x) {
        let i = choose|i: int| 0 <= i < (a + b).len() && (a + b)[i] == x;
        if i < a.len() {
            assert(a[i] == x);
        } else {
            assert(b[i - a.len()] == x);
        }
    }
    if a.contains(x) {
        let i = choose|i: int| 0 <= i < a.len() && a[i] == x;
        assert((a + b)[i] == x);
    }
    if b.contains(x) {
        let i = choose|i: int| 0 <= i < b.len() && b[i] == x;
        assert((a + b)[a.len() + i] == x);
    }
}

/// The requested names that the driver actually offers, in request order.
pub fn retain_available(requested: &Vec<Vec<u8>>, available: &Vec<Vec<u8>>) -> (kept: Vec<
    Vec<u8>,
>)
    ensures
        kept.deep_view() == requested.deep_view().filter(
            |t: Seq<u8>| available.deep_view().contains(t),
        ),
{
    let ghost pred = |t: Seq<u8>| available.deep_view().contains(t);
    let mut kept: Vec<Vec<u8>> = Vec::new();
    let mut i: usize = 0;
    proof {
        reveal(Seq::filter);
        assert(requested.deep_view().subrange(0, 0) =~= Seq::<Seq<u8>>::empty());
        assert(kept.deep_view() =~= requested.deep_view().subrange(0, 0).filter(pred));
    }
    while i < requested.len()
        invariant
            i <= requested@.len(),
            kept.deep_view() == requested.deep_view().subrange(0, i as int).filter(pred),
            pred == (|t: Seq<u8>| available.deep_view().contains(t)),
        decreases requested@.len() - i,
    {
        let ghost prefix = requested.deep_view().subrange(0, i as int);
        let ghost extended = requested.deep_view().subrange(0, i as int + 1);
        proof {
            reveal(Seq::filter);
            assert(extended.drop_last() =~= prefix);
            assert(extended.last() == requested.deep_view()[i as int]);
        }
        let ghost old_kept = kept.deep_view();
        let hit = contains_extension(available, &requested[i]);
        proof {
            assert(requested.deep_view()[i as int] =~= requested[i as int]@);
        }
        if hit {
            kept.push(clone_bytes(&requested[i]));
            proof {
                assert(kept.deep_view() =~~= old_kept.push(requested.deep_view()[i as int]));
            }
        }
        i = i + 1;
    }
    proof {
        assert(requested.deep_view().subrange(0, requested@.len() as int) =~= requested.deep_view());
    }
    kept
}

/// Name of the timeline-semaphore device extension, which the GPU backend
/// assumes is always enabled: the bytes of "VK_KHR_timeline_semaphore".
pub open spec fn timeline_semaphore_name() -> Seq<u8> {
    seq![
        86u8, 75u8, 95u8, 75u8, 72u8, 82u8, 95u8, 116u8, 105u8, 109u8, 101u8, 108u8, 105u8, 110u8,
        101u8, 95u8, 115u8, 101u8, 109u8, 97u8, 112u8, 104u8, 111u8, 114u8, 101u8,
    ]
}

/// Name of the timeline-semaphore device extension, executable form.
pub fn timeline_semaphore_extension() -> (r: Vec<u8>)
    ensures
        r@ == timeline_semaphore_name(),
{
    let r: Vec<u8> = vec![
        86u8, 75u8, 95u8, 75u8, 72u8, 82u8, 95u8, 116u8, 105u8, 109u8, 101u8, 108u8, 105u8, 110u8,
        101u8, 95u8, 115u8, 101u8, 109u8, 97u8, 112u8, 104u8, 111u8, 114u8, 101u8,
    ];
    proof {
        assert(r@ =~= timeline_semaphore_name());
    }
    r
}

/// Name of the portability-enumeration instance extension, the bytes of
/// "VK_KHR_portability_enumeration". When the driver requires it, instance
/// creation must pass the matching enumerate flag.
pub open spec fn portability_enumeration_name() -> Seq<u8> {
    seq![
        86u8, 75u8, 95u8, 75u8, 72u8, 82u8, 95u8, 112u8, 111u8, 114u8, 116u8, 97u8, 98u8, 105u8,
        108u8, 105u8, 116u8, 121u8, 95u8, 101u8, 110u8, 117u8, 109u8, 101u8, 114u8, 97u8, 116u8,
        105u8, 111u8, 110u8,
    ]
}

/// Name of the portability-enumeration instance extension, executable form.
pub fn portability_enumeration_extension() -> (r: Vec<u8>)
    ensures
        r@ == portability_enumeration_name(),
{
    let r: Vec<u8> = vec![
        86u8, 75u8, 95u8, 75u8, 72u8, 82u8, 95u8, 112u8, 111u8, 114u8, 116u8, 97u8, 98u8, 105u8,
        108u8, 105u8, 116u8, 121u8, 95u8, 101u8, 110u8, 117u8, 109u8, 101u8, 114u8, 97u8, 116u8,
        105u8, 111u8, 110u8,
    ];
    proof {
        assert(r@ =~= portability_enumeration_name());
    }
    r
}

/// Name of the driver layer that marks a dual-GPU optimus system: the bytes
/// of "VK_LAYER_NV_optimus". The GPU backend wants to know whether it is
/// present when it adopts a raw instance.
pub open spec fn nv_optimus_layer_name() -> Seq<u8> {
    seq![
        86u8, 75u8, 95u8, 76u8, 65u8, 89u8, 69u8, 82u8, 95u8, 78u8, 86u8, 95u8, 111u8, 112u8,
        116u8, 105u8, 109u8, 117u8, 115u8,
    ]
}

/// Name of the dual-GPU optimus driver layer, executable form.
pub fn nv_optimus_layer() -> (r: Vec<u8>)
    ensures
        r@ == nv_optimus_layer_name(),
{
    let r: Vec<u8> = vec![
        86u8, 75u8, 95u8, 76u8, 65u8, 89u8, 69u8, 82u8, 95u8, 78u8, 86u8, 95u8, 111u8, 112u8,
        116u8, 105u8, 109u8, 117u8, 115u8,
    ];
    proof {
        assert(r@ =~= nv_optimus_layer_name());
    }
    r
}

/// Name of the validation layer requested in debug builds: the bytes of
/// "VK_LAYER_KHRONOS_validation".
pub open spec fn validation_layer_name() -> Seq<u8> {
    seq![
        86u8, 75u8, 95u8, 76u8, 65u8, 89u8, 69u8, 82u8, 95u8, 75u8, 72u8, 82u8, 79u8, 78u8, 79u8,
        83u8, 95u8, 118u8, 97u8, 108u8, 105u8, 100u8, 97u8, 116u8, 105u8, 111u8, 110u8,
    ]
}

/// Name of the validation layer requested in debug builds, executable form.
pub fn validation_layer() -> (r: Vec<u8>)
    ensures
        r@ == validation_layer_name(),
{
    let r: Vec<u8> = vec![
        86u8, 75u8, 95u8, 76u8, 65u8, 89u8, 69u8, 82u8, 95u8, 75u8, 72u8, 82u8, 79u8, 78u8, 79u8,
        83u8, 95u8, 118u8, 97u8, 108u8, 105u8, 100u8, 97u8, 116u8, 105u8, 111u8, 110u8,
    ];
    proof {
        assert(r@ =~= validation_layer_name());
    }
    r
}

} // verus!
