//! Properties of parse sessions, stated over the step of one line and the
//! run of a whole sequence of lines.

use vstd::prelude::*;
use crate::lexers::isin_spec;
use crate::line::{classify, data_fields, section_spec, LineFields, LineType};
use crate::record::{ErrorModel, FundMaturity, RecordModel};
use crate::session::{assemble, initial, run, step, Context, SessionModel};
use crate::text::{find_from, trimmed};

verus! {

/// A data line whose fields parse yields exactly one item: the record of those
/// fields under the context in force, and the context stays as it was.
pub proof fn lemma_data_line_yields_record(st: SessionModel, l: Seq<char>)
    requires
        !st.bailout,
        classify(l) == LineType::Record,
        data_fields(trimmed(l)) is Some,
    ensures
        step(st, l) == (
            st,
            Some(Ok::<RecordModel, ErrorModel>(assemble(data_fields(trimmed(l))->0, st.ctx))),
        ),
{
}

/// Lines that are not fund-family lines leave the fund family as it is, and
/// every record they yield carries it.
pub proof fn lemma_amc_kept(st: SessionModel, ls: Seq<Seq<char>>)
    requires
        forall|i: int| 0 <= i < ls.len() ==> classify(#[trigger] ls[i]) != LineType::Amc,
    ensures
        run(st, ls).0.ctx.amc == st.ctx.amc,
        forall|k: int|
            0 <= k < run(st, ls).1.len() ==> (#[trigger] run(st, ls).1[k] matches Ok(r) ==> r.amc
                == st.ctx.amc),
    decreases ls.len(),
{
    if ls.len() > 0 {
        let prev = ls.drop_last();
        assert forall|i: int| 0 <= i < prev.len() implies classify(
            #[trigger] prev[i],
        ) != LineType::Amc by {
            assert(prev[i] == ls[i]);
        }
        lemma_amc_kept(st, prev);
        assert(classify(ls[ls.len() - 1]) != LineType::Amc);
    }
}

/// After a fund-family line, the trimmed line is the fund family of every
/// record up to the next fund-family line, whatever blank, header, section
/// or data lines come between.
pub proof fn lemma_amc_applies(st: SessionModel, a: Seq<char>, ls: Seq<Seq<char>>)
    requires
        !st.bailout,
        classify(a) == LineType::Amc,
        forall|i: int| 0 <= i < ls.len() ==> classify(#[trigger] ls[i]) != LineType::Amc,
    ensures
        run(step(st, a).0, ls).0.ctx.amc == trimmed(a),
        forall|k: int|
            0 <= k < run(step(st, a).0, ls).1.len() ==> (#[trigger] run(step(st, a).0, ls).1[k] matches Ok(
                r,
            ) ==> r.amc == trimmed(a)),
{
    lemma_amc_kept(step(st, a).0, ls);
}

/// A section line sets maturity, scheme group and category together and
/// keeps the fund family, or, if it does not parse, changes no part of the
/// context and ends the session with one error.
pub proof fn lemma_section_line_atomic(st: SessionModel, l: Seq<char>)
    requires
        !st.bailout,
        classify(l) == LineType::Scheme,
    ensures
        match section_spec(trimmed(l)) {
            Some((m, g, c)) => step(st, l) == (
                SessionModel {
                    ctx: Context { amc: st.ctx.amc, category: c, scheme: g, maturity: m },
                    bailout: false,
                },
                None::<Result<RecordModel, ErrorModel>>,
            ),
            None => step(st, l) == (
                SessionModel { ctx: st.ctx, bailout: true },
                Some(Err::<RecordModel, ErrorModel>(ErrorModel::SynomError(l))),
            ),
        },
{
}

/// The section read from a section line is in the record of the very next
/// data line.
pub proof fn lemma_section_seen_by_next_record(
    st: SessionModel,
    l: Seq<char>,
    r: Seq<char>,
    m: Option<FundMaturity>,
    g: Option<Seq<char>>,
    c: Seq<char>,
    f: LineFields,
)
    requires
        !st.bailout,
        classify(l) == LineType::Scheme,
        section_spec(trimmed(l)) == Some((m, g, c)),
        classify(r) == LineType::Record,
        data_fields(trimmed(r)) == Some(f),
    ensures
        step(step(st, l).0, r).1 == Some(
            Ok::<RecordModel, ErrorModel>(
                assemble(f, Context { amc: st.ctx.amc, category: c, scheme: g, maturity: m }),
            ),
        ),
{
}

/// A session is a function of its lines alone: two sessions over the same
/// lines end in the same state with the same items.
pub proof fn lemma_sessions_agree(a: Seq<Seq<char>>, b: Seq<Seq<char>>)
    requires
        a =~= b,
    ensures
        run(initial(), a) == run(initial(), b),
{
}

/// The placeholders `---` and `-` read as no identifier, never as a failure.
pub proof fn lemma_placeholder_is_absent(s: Seq<char>, i: int)
    requires
        0 <= i < s.len(),
        s[i] == '-',
    ensures
        isin_spec(s, i) matches Some((v, j)) && v is None,
        i + 3 <= s.len() && s[i + 1] == '-' && s[i + 2] == '-' ==> isin_spec(s, i) == Some(
            (None::<Seq<char>>, i + 3),
        ),
        !(i + 1 < s.len() && s[i + 1] == '-') ==> isin_spec(s, i) == Some(
            (None::<Seq<char>>, i + 1),
        ),
{
}

/// An unknown maturity is no error: a section line parses whenever it has a
/// `(` and a later `)`, whatever its prefix.
pub proof fn lemma_unknown_maturity_parses(t: Seq<char>)
    requires
        find_from(t, 0, seq!['(']) matches Some(o) && find_from(t, o + 1, seq![')']) is Some,
    ensures
        section_spec(t) is Some,
{
}

/// A data line that does not parse yields one error that holds the trimmed
/// line, and leaves the session as it was, so later lines are still read.
pub proof fn lemma_bad_record_is_local(st: SessionModel, l: Seq<char>)
    requires
        !st.bailout,
        classify(l) == LineType::Record,
        data_fields(trimmed(l)) is None,
    ensures
        step(st, l) == (
            st,
            Some(Err::<RecordModel, ErrorModel>(ErrorModel::SynomError(trimmed(l)))),
        ),
{
}

/// A session that gave up yields nothing more, whatever lines follow.
pub proof fn lemma_bailout_is_final(st: SessionModel, ls: Seq<Seq<char>>)
    requires
        st.bailout,
    ensures
        run(st, ls) == (st, Seq::<crate::session::ItemModel>::empty()),
    decreases ls.len(),
{
    if ls.len() > 0 {
        lemma_bailout_is_final(st, ls.drop_last());
    }
}

} // verus!
