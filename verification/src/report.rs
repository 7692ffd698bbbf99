//! Rendering of an error's source chain, one indented, numbered line per
//! cause, as the server prints it when startup fails.

use vstd::prelude::*;
use crate::text::dec_chars_of;
use crate::text::push_decimal_u8;

verus! {

/// The rendered chain from message `i` on, numbering from `count`.
pub open spec fn source_context_from(msgs: Seq<Seq<char>>, count: nat, i: int) -> Seq<char>
    decreases msgs.len() - i,
{
    if i < 0 || i >= msgs.len() {
        Seq::empty()
    } else {
        "\n    "@ + dec_chars_of(count) + ": "@ + msgs[i] + source_context_from(
            msgs,
            count + 1,
            i + 1,
        )
    }
}

/// The rendered chain of all messages, numbering from `count`.
pub open spec fn source_context(msgs: Seq<Seq<char>>, count: nat) -> Seq<char> {
    source_context_from(msgs, count, 0)
}

fn write_source_from(messages: &Vec<String>, count: u8, i: usize, out: &mut String)
    requires
        i <= messages@.len(),
        count + (messages@.len() - i) <= 256,
    ensures
        final(out)@ == old(out)@ + source_context_from(
            messages.deep_view(),
            count as nat,
            i as int,
        ),
    decreases messages@.len() - i,
{
    if i < messages.len() {
        let ghost before = out@;
        out.append("\n    ");
        push_decimal_u8(out, count);
        out.append(": ");
        out.append(messages[i].as_str());
        proof {
            assert(messages.deep_view()[i as int] == messages@[i as int]@);
            assert(out@ =~= before + ("\n    "@ + dec_chars_of(count as nat) + ": "@
                + messages.deep_view()[i as int]));
        }
        if i + 1 < messages.len() {
            let ghost mid = out@;
            write_source_from(messages, count + 1, i + 1, out);
            proof {
                assert(out@ =~= before + ("\n    "@ + dec_chars_of(count as nat) + ": "@
                    + messages.deep_view()[i as int] + source_context_from(
                    messages.deep_view(),
                    count as nat + 1,
                    i + 1,
                )));
            }
        } else {
            proof {
                assert(source_context_from(messages.deep_view(), count as nat + 1, i + 1)
                    =~= Seq::<char>::empty());
                assert(out@ =~= before + ("\n    "@ + dec_chars_of(count as nat) + ": "@
                    + messages.deep_view()[i as int] + source_context_from(
                    messages.deep_view(),
                    count as nat + 1,
                    i + 1,
                )));
            }
        }
    } else {
        proof {
            assert(out@ =~= old(out)@ + source_context_from(
                messages.deep_view(),
                count as nat,
                i as int,
            ));
        }
    }
}

/// Renders an error's chain of source messages: one line per cause, each
/// indented and numbered, numbering from `count`.
pub fn write_source(messages: &Vec<String>, count: u8) -> (out: String)
    requires
        count + messages@.len() <= 256,
    ensures
        out@ == source_context(messages.deep_view(), count as nat),
{
    let mut out = String::new();
    write_source_from(messages, count, 0, &mut out);
    proof {
        assert(Seq::<char>::empty() + source_context(messages.deep_view(), count as nat)
            =~= source_context(messages.deep_view(), count as nat));
    }
    out
}

} // verus!
