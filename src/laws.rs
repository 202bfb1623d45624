//! Properties that relate several operations of the library.

use vstd::prelude::*;
use vstd::utf8::{
    encode_utf8, encode_utf8_decode_utf8, encode_utf8_valid_utf8, is_ascii_chars,
    is_ascii_chars_encode_utf8,
};

use crate::buffer::read_name;
use crate::dispatch::{
    change_step, host_name_step, start_step, HostQuery, ModeView, RequestView, StepView,
};
use crate::error::{HostError, NameKind};
use crate::interfaces::{is_link_local, usable, usable_of, InterfaceBinding};
use crate::text::{index_of, lemma_index_of, lemma_index_of_bounds, line};
use crate::validate::{is_name_char, valid_hostname};

verus! {

/// A valid name is handed to the OS unchanged when it is set, and when the
/// OS later writes it back (NUL-terminated, whatever follows) the host name
/// that is reported is that same name.
pub proof fn lemma_set_then_read(n: Seq<char>, rest: Seq<u8>)
    requires
        valid_hostname(n),
    ensures
        start_step(ModeView::SetDirect(n)) == StepView::Ask(RequestView::SetHostName(n)),
        change_step(n) == StepView::Ask(RequestView::SetHostName(n)),
        read_name(0, encode_utf8(n) + seq![0u8] + rest, NameKind::Host) == Ok::<
            Seq<char>,
            HostError,
        >(n),
        host_name_step(
            HostQuery::Print,
            read_name(0, encode_utf8(n) + seq![0u8] + rest, NameKind::Host),
        ) == StepView::Done(Ok::<Seq<char>, HostError>(line(n))),
{
    let e = encode_utf8(n);
    let b = e + seq![0u8] + rest;
    assert(is_ascii_chars(n)) by {
        assert forall|i: int| 0 <= i < n.len() implies '\0' <= #[trigger] n[i] <= '\u{7f}' by {
            assert(is_name_char(n[i]));
        }
    }
    is_ascii_chars_encode_utf8(n);
    assert forall|j: int| 0 <= j < e.len() implies b[j] != 0u8 by {
        assert(is_name_char(n[j]));
        assert(b[j] == e[j]);
    }
    assert(b[e.len() as int] == 0u8);
    lemma_index_of(b, 0u8, e.len() as int);
    assert(b.take(e.len() as int) =~= e);
    encode_utf8_valid_utf8(n);
    encode_utf8_decode_utf8(n);
}

/// The addresses kept from a list of interface bindings are never IPv6
/// link-local, and each is the address of a binding on an interface that
/// is up and not loopback.
pub proof fn lemma_usable_excludes(bs: Seq<InterfaceBinding>)
    ensures
        forall|k: int| 0 <= k < usable_of(bs).len() ==> !is_link_local(#[trigger] usable_of(bs)[k]),
        forall|k: int|
            0 <= k < usable_of(bs).len() ==> exists|j: int|
                0 <= j < bs.len() && bs[j].address == Some(#[trigger] usable_of(bs)[k])
                    && !bs[j].is_loopback && bs[j].is_up,
    decreases bs.len(),
{
    if bs.len() > 0 {
        let init = bs.drop_last();
        lemma_usable_excludes(init);
        assert forall|k: int| 0 <= k < usable_of(bs).len() implies {
            &&& !is_link_local(#[trigger] usable_of(bs)[k])
            &&& exists|j: int|
                0 <= j < bs.len() && bs[j].address == Some(usable_of(bs)[k]) && !bs[j].is_loopback
                    && bs[j].is_up
        } by {
            if k < usable_of(init).len() {
                assert(usable_of(bs)[k] == usable_of(init)[k]);
                let j = choose|j: int|
                    0 <= j < init.len() && init[j].address == Some(usable_of(init)[k])
                        && !init[j].is_loopback && init[j].is_up;
                assert(bs[j] == init[j]);
            } else {
                let j = bs.len() - 1;
                assert(usable(bs[j]));
                assert(usable_of(bs)[k] == bs[j].address.unwrap());
            }
        }
    }
}

/// The short name reports the default output up to its first dot (on a
/// line of its own), or the whole default output when it holds no dot;
/// both report the same failure when the host name cannot be read.
pub proof fn lemma_short_is_prefix(read: Result<Seq<char>, HostError>)
    ensures
        match (host_name_step(HostQuery::Print, read), host_name_step(HostQuery::Short, read)) {
            (StepView::Done(Ok(d)), StepView::Done(Ok(s))) => if index_of(d, '.') < d.len() {
                s == d.take(index_of(d, '.')) + seq!['\n']
            } else {
                s == d
            },
            (StepView::Done(Err(e1)), StepView::Done(Err(e2))) => e1 == e2,
            _ => false,
        },
{
    if let Ok(n) = read {
        let d = line(n);
        let k = index_of(n, '.');
        lemma_index_of_bounds(n, '.');
        if k < n.len() {
            lemma_index_of(d, '.', k);
            assert(d.take(k) =~= n.take(k));
        } else {
            lemma_index_of(d, '.', d.len() as int);
            assert(n.take(k) =~= n);
        }
    }
}

} // verus!
