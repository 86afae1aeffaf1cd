//! What holds of a pull as a whole.

use vstd::prelude::*;

use crate::error::LayerError;
use crate::layer::DecoderStep;
use crate::layer::LayerMeta;
use crate::layer::LayerRoute;
use crate::layer::LayerStart;
use crate::layer::LayerTask;
use crate::layer::MediaTypeStep;
use crate::order::by_number;
use crate::order::in_number_order;
use crate::order::lists_rising;
use crate::order::picked;

verus! {

/// What the work on one layer brings, should it be asked for.
pub struct LayerAnswers<E> {
    pub store_path: String,
    pub encrypted: bool,
    pub plaintext_media_type: String,
    pub key: Result<Result<(), E>, E>,
    pub plaintext: Result<(), E>,
    pub decoder: Result<(), E>,
    pub digest: Result<String, E>,
}

impl<E> LayerAnswers<E> {
    /// The layer data can be had in plaintext.
    pub open spec fn readable(self) -> bool {
        self.encrypted ==> (self.key matches Ok(Ok(_))) && self.plaintext is Ok
    }
}

/// Where the steps lead from a layer that is fetched to the search for its
/// decoder.
pub open spec fn to_decoder<E>(task: LayerTask, answers: LayerAnswers<E>) -> Result<
    DecoderStep,
    LayerError<E>,
> {
    let located = MediaTypeStep { task, store_path: answers.store_path };
    match located.routed(answers.encrypted, answers.plaintext_media_type) {
        LayerRoute::Plain(step) => Ok(step),
        LayerRoute::Encrypted(step) => match step.keyed(answers.key) {
            Err(error) => Err(error),
            Ok((keyed, _)) => match keyed.decrypted(answers.plaintext) {
                Err(error) => Err(error),
                Ok((decrypted, _)) => Ok(decrypted),
            },
        },
    }
}

/// Where the steps lead from the beginning to the end, given the layers that
/// were pulled before.
pub open spec fn handled<E>(
    task: LayerTask,
    known: Map<Seq<char>, LayerMeta>,
    answers: LayerAnswers<E>,
) -> Result<LayerMeta, LayerError<E>> {
    match task.started(known) {
        LayerStart::Cached(layer_meta) => Ok(layer_meta),
        LayerStart::Fetch(first) => match to_decoder(first.task, answers) {
            Err(error) => Err(error),
            Ok(step) => match step.decoded(answers.decoder) {
                Err(error) => Err(error),
                Ok((unpack, _)) => unpack.finished(answers.digest),
            },
        },
    }
}

/// A layer that was pulled before ends with what was kept of it, whatever work
/// on it would bring.
pub proof fn law_known_layer_is_kept<E>(
    task: LayerTask,
    known: Map<Seq<char>, LayerMeta>,
    answers: LayerAnswers<E>,
)
    requires
        known.contains_key(task.layer.digest@),
    ensures
        handled(task, known, answers) == Ok::<LayerMeta, LayerError<E>>(
            known[task.layer.digest@],
        ),
{
}

/// A layer that is fetched is accepted if and only if its data can be had in
/// plaintext, has a decoder and can be unpacked, and its digest then is the
/// one that the image configuration gives. What is kept of it says so.
pub proof fn law_accepted_layer<E>(
    task: LayerTask,
    known: Map<Seq<char>, LayerMeta>,
    answers: LayerAnswers<E>,
)
    requires
        !known.contains_key(task.layer.digest@),
    ensures
        handled(task, known, answers) is Ok <==> {
            &&& answers.readable()
            &&& answers.decoder is Ok
            &&& answers.digest matches Ok(digest) && digest@ == task.diff_id@
        },
        handled(task, known, answers) matches Ok(layer_meta) ==> {
            &&& layer_meta.compressed_digest == task.layer.digest
            &&& layer_meta.uncompressed_digest@ == task.diff_id@
            &&& layer_meta.store_path == answers.store_path
            &&& layer_meta.encrypted == answers.encrypted
        },
{
}

/// A layer that is fetched and not accepted ends with the first failure: of
/// the thread, the key, the decryption, the decoder, the unpacking, and last
/// of all the comparison of the digests.
pub proof fn law_first_failure_is_reported<E>(
    task: LayerTask,
    known: Map<Seq<char>, LayerMeta>,
    answers: LayerAnswers<E>,
    error: LayerError<E>,
)
    requires
        !known.contains_key(task.layer.digest@),
    ensures
        handled(task, known, answers) == Err::<LayerMeta, LayerError<E>>(error) <==> match error {
            LayerError::DecryptThread(e) => answers.encrypted && answers.key
                == Err::<Result<(), E>, E>(e),
            LayerError::DecryptKey(e) => answers.encrypted && answers.key
                == Ok::<Result<(), E>, E>(Err(e)),
            LayerError::Plaintext(e) => {
                &&& answers.encrypted
                &&& answers.key matches Ok(Ok(_))
                &&& answers.plaintext == Err::<(), E>(e)
            },
            LayerError::Decoder(e) => answers.readable() && answers.decoder == Err::<(), E>(e),
            LayerError::Unpack(e) => {
                &&& answers.readable()
                &&& answers.decoder is Ok
                &&& answers.digest == Err::<String, E>(e)
            },
            LayerError::UnequalDigest { uncompressed_digest, diff_id } => {
                &&& answers.readable()
                &&& answers.decoder is Ok
                &&& answers.digest == Ok::<String, E>(uncompressed_digest)
                &&& diff_id == task.diff_id
                &&& uncompressed_digest@ != diff_id@
            },
        },
{
}

/// The decoder is sought for the data as it then stands: by the media type of
/// the plaintext for an encrypted layer, by the media type of the layer else.
pub proof fn law_decoder_fits_the_data<E>(task: LayerTask, answers: LayerAnswers<E>)
    ensures
        to_decoder(task, answers) is Ok <==> answers.readable(),
        to_decoder(task, answers) matches Ok(step) ==> {
            &&& step.task == task
            &&& step.store_path == answers.store_path
            &&& step.encrypted == answers.encrypted
            &&& step.media_type == if answers.encrypted {
                answers.plaintext_media_type
            } else {
                task.layer.media_type
            }
        },
{
}

/// What becomes of a layer that is not encrypted does not depend on anything
/// about decryption.
pub proof fn law_plain_layer_is_not_decrypted<E>(
    task: LayerTask,
    known: Map<Seq<char>, LayerMeta>,
    answers: LayerAnswers<E>,
    others: LayerAnswers<E>,
)
    requires
        !answers.encrypted,
        !others.encrypted,
        answers.store_path == others.store_path,
        answers.decoder == others.decoder,
        answers.digest == others.digest,
    ensures
        handled(task, known, answers) == handled(task, known, others),
{
}

/// Something was pulled under the number.
pub open spec fn occurs(pulled: Seq<(usize, LayerMeta)>, number: usize) -> bool {
    exists|i: int| 0 <= i < pulled.len() && (#[trigger] pulled[i]).0 == number
}

/// There is an entry for a number if and only if the number occurs.
pub(crate) proof fn lemma_numbers_occur(pulled: Seq<(usize, LayerMeta)>, number: usize)
    ensures
        by_number(pulled).contains_key(number) <==> occurs(pulled, number),
    decreases pulled.len(),
{
    if pulled.len() > 0 {
        let rest = pulled.drop_last();
        lemma_numbers_occur(rest, number);
        if by_number(rest).contains_key(number) {
            let i = choose|i: int| 0 <= i < rest.len() && (#[trigger] rest[i]).0 == number;
            assert(pulled[i].0 == number);
        }
        if occurs(pulled, number) {
            let i = choose|i: int| 0 <= i < pulled.len() && (#[trigger] pulled[i]).0 == number;
            if i < rest.len() {
                assert(rest[i].0 == number);
            }
        }
        assert(pulled[pulled.len() - 1].0 == pulled.last().0);
    }
}

/// Under a number stands what was pulled under it last.
pub proof fn law_last_pull_counts(pulled: Seq<(usize, LayerMeta)>, i: int)
    requires
        0 <= i < pulled.len(),
        forall|j: int| i < j < pulled.len() ==> (#[trigger] pulled[j]).0 != pulled[i].0,
    ensures
        by_number(pulled).contains_key(pulled[i].0),
        by_number(pulled)[pulled[i].0] == pulled[i].1,
    decreases pulled.len(),
{
    if i < pulled.len() - 1 {
        let rest = pulled.drop_last();
        assert forall|j: int| i < j < rest.len() implies (#[trigger] rest[j]).0 != rest[i].0 by {
            assert(pulled[j].0 != pulled[i].0);
        }
        law_last_pull_counts(rest, i);
        assert(pulled[pulled.len() - 1].0 != pulled[i].0);
    }
}

/// Two rising lists of the same numbers are the same up to `i`.
proof fn lemma_rising_lists_agree(a: Seq<usize>, b: Seq<usize>, members: Set<usize>, i: int)
    requires
        lists_rising(a, members),
        lists_rising(b, members),
        0 <= i < a.len(),
    ensures
        i < b.len(),
        a[i] == b[i],
    decreases i,
{
    if i > 0 {
        lemma_rising_lists_agree(a, b, members, i - 1);
    }
    assert(a.contains(a[i]));
    assert(b.contains(a[i]));
    let at = choose|at: int| 0 <= at < b.len() && b[at] == a[i];
    if at < i {
        lemma_rising_lists_agree(a, b, members, at);
    }
    assert(b.contains(b[i]));
    assert(a.contains(b[i]));
    let back = choose|back: int| 0 <= back < a.len() && a[back] == b[i];
    if back < i {
        lemma_rising_lists_agree(a, b, members, back);
    }
}

/// What was pulled can be put in the order of its numbers in one way only.
pub proof fn law_order_is_unique(
    pulled: Seq<(usize, LayerMeta)>,
    ordered: Seq<LayerMeta>,
    other: Seq<LayerMeta>,
)
    requires
        in_number_order(pulled, ordered),
        in_number_order(pulled, other),
    ensures
        ordered == other,
{
    let members = by_number(pulled).dom();
    let a = choose|numbers: Seq<usize>| #[trigger]
        lists_rising(numbers, members) && ordered == picked(by_number(pulled), numbers);
    let b = choose|numbers: Seq<usize>| #[trigger]
        lists_rising(numbers, members) && other == picked(by_number(pulled), numbers);
    assert forall|i: int| 0 <= i < a.len() implies i < b.len() && a[i] == b[i] by {
        lemma_rising_lists_agree(a, b, members, i);
    }
    assert forall|i: int| 0 <= i < b.len() implies i < a.len() && b[i] == a[i] by {
        lemma_rising_lists_agree(b, a, members, i);
    }
    assert(a.len() <= b.len()) by {
        if a.len() > 0 {
            assert(a[a.len() - 1] == b[a.len() - 1]);
        }
    }
    assert(b.len() <= a.len()) by {
        if b.len() > 0 {
            assert(b[b.len() - 1] == a[b.len() - 1]);
        }
    }
    assert(a =~= b);
}

/// No number occurs twice.
pub open spec fn distinct_numbers(pulled: Seq<(usize, LayerMeta)>) -> bool {
    forall|i: int, j: int|
        0 <= i < j < pulled.len() ==> (#[trigger] pulled[i]).0 != (#[trigger] pulled[j]).0
}

/// The order in which the layers finish does not matter: two pulls of the
/// same layers, each under a number of its own, are put in the same order.
pub proof fn law_finishing_order_does_not_matter(
    pulled: Seq<(usize, LayerMeta)>,
    other: Seq<(usize, LayerMeta)>,
    ordered: Seq<LayerMeta>,
)
    requires
        distinct_numbers(pulled),
        distinct_numbers(other),
        forall|entry: (usize, LayerMeta)| pulled.contains(entry) <==> other.contains(entry),
        in_number_order(pulled, ordered),
    ensures
        in_number_order(other, ordered),
{
    let one = by_number(pulled);
    let two = by_number(other);
    assert forall|n: usize|
        #![trigger one.contains_key(n)]
        #![trigger two.contains_key(n)]
        one.contains_key(n) == two.contains_key(n) && (one.contains_key(n) ==> one[n]
            == two[n]) by {
        lemma_numbers_occur(pulled, n);
        lemma_numbers_occur(other, n);
        if one.contains_key(n) {
            let i = choose|i: int| 0 <= i < pulled.len() && (#[trigger] pulled[i]).0 == n;
            assert(pulled.contains(pulled[i]));
            assert(other.contains(pulled[i]));
            let j = choose|j: int| 0 <= j < other.len() && other[j] == pulled[i];
            assert(other[j].0 == n);
            law_last_pull_counts(pulled, i);
            law_last_pull_counts(other, j);
        }
        if two.contains_key(n) {
            let j = choose|j: int| 0 <= j < other.len() && (#[trigger] other[j]).0 == n;
            assert(other.contains(other[j]));
            assert(pulled.contains(other[j]));
            let i = choose|i: int| 0 <= i < pulled.len() && pulled[i] == other[j];
            assert(pulled[i].0 == n);
        }
    }
    assert(one.dom() =~= two.dom());
    assert(one =~= two);
}

/// The layers of a manifest with `count` layers, each once.
pub open spec fn each_layer_once(pulled: Seq<(usize, LayerMeta)>, count: nat) -> bool {
    &&& distinct_numbers(pulled)
    &&& forall|i: int| 0 <= i < pulled.len() ==> (#[trigger] pulled[i]).0 < count
    &&& forall|n: usize| n < count ==> #[trigger] occurs(pulled, n)
}

/// Where each layer of a manifest was pulled once, the ordered layers are the
/// layers of the manifest: as many, and each at its own place.
pub proof fn law_manifest_order(
    pulled: Seq<(usize, LayerMeta)>,
    count: nat,
    ordered: Seq<LayerMeta>,
)
    requires
        each_layer_once(pulled, count),
        in_number_order(pulled, ordered),
        count <= usize::MAX,
    ensures
        ordered.len() == count,
        forall|i: int|
            0 <= i < pulled.len() ==> ordered[(#[trigger] pulled[i]).0 as int] == pulled[i].1,
{
    let found = by_number(pulled);
    let plain = Seq::new(count, |i: int| i as usize);
    assert forall|n: usize| plain.contains(n) <==> found.dom().contains(n) by {
        lemma_numbers_occur(pulled, n);
        if n < count {
            assert(plain[n as int] == n);
        }
    }
    assert(lists_rising(plain, found.dom()));
    assert(in_number_order(pulled, picked(found, plain)));
    law_order_is_unique(pulled, ordered, picked(found, plain));
    assert forall|i: int| 0 <= i < pulled.len() implies ordered[(#[trigger] pulled[i]).0 as int]
        == pulled[i].1 by {
        law_last_pull_counts(pulled, i);
        assert(plain[pulled[i].0 as int] == pulled[i].0);
    }
}

/// Each layer was pulled once, and what was pulled under its number is what
/// its handling ended with.
pub open spec fn all_handled<E>(
    tasks: Seq<LayerTask>,
    known: Seq<Map<Seq<char>, LayerMeta>>,
    answers: Seq<LayerAnswers<E>>,
    pulled: Seq<(usize, LayerMeta)>,
) -> bool {
    &&& each_layer_once(pulled, tasks.len())
    &&& forall|i: int|
        0 <= i < pulled.len() ==> handled(
            tasks[(#[trigger] pulled[i]).0 as int],
            known[pulled[i].0 as int],
            answers[pulled[i].0 as int],
        ) == Ok::<LayerMeta, LayerError<E>>(pulled[i].1)
}

/// The ordered layers of a pull are what the handling of each layer ended
/// with, in the order of the layers.
pub proof fn law_ordered_layers_are_the_handled_ones<E>(
    tasks: Seq<LayerTask>,
    known: Seq<Map<Seq<char>, LayerMeta>>,
    answers: Seq<LayerAnswers<E>>,
    pulled: Seq<(usize, LayerMeta)>,
    ordered: Seq<LayerMeta>,
)
    requires
        tasks.len() <= usize::MAX,
        all_handled(tasks, known, answers, pulled),
        in_number_order(pulled, ordered),
    ensures
        ordered.len() == tasks.len(),
        forall|n: int|
            0 <= n < tasks.len() ==> handled(tasks[n], known[n], answers[n]) == Ok::<
                LayerMeta,
                LayerError<E>,
            >(#[trigger] ordered[n]),
{
    law_manifest_order(pulled, tasks.len(), ordered);
    assert forall|n: int| 0 <= n < tasks.len() implies handled(tasks[n], known[n], answers[n])
        == Ok::<LayerMeta, LayerError<E>>(#[trigger] ordered[n]) by {
        let number = n as usize;
        assert(occurs(pulled, number));
        let i = choose|i: int| 0 <= i < pulled.len() && (#[trigger] pulled[i]).0 == number;
        assert(ordered[pulled[i].0 as int] == pulled[i].1);
    }
}

/// The hashes are in the same order: where every layer of an image was
/// handled with the digest at its place among the `diff_ids` and accepted, the
/// ordered layers have those digests, in the order of the `diff_ids`. A layer
/// that was pulled before has to be kept with its digest.
pub proof fn law_digests_follow_diff_ids<E>(
    tasks: Seq<LayerTask>,
    diff_ids: Seq<String>,
    known: Seq<Map<Seq<char>, LayerMeta>>,
    answers: Seq<LayerAnswers<E>>,
    pulled: Seq<(usize, LayerMeta)>,
    ordered: Seq<LayerMeta>,
)
    requires
        tasks.len() <= diff_ids.len(),
        tasks.len() <= usize::MAX,
        forall|n: int| 0 <= n < tasks.len() ==> (#[trigger] tasks[n]).diff_id == diff_ids[n],
        forall|n: int|
            0 <= n < tasks.len() && known[n].contains_key((#[trigger] tasks[n]).layer.digest@)
                ==> known[n][tasks[n].layer.digest@].uncompressed_digest@ == diff_ids[n]@,
        all_handled(tasks, known, answers, pulled),
        in_number_order(pulled, ordered),
    ensures
        ordered.len() == tasks.len(),
        forall|n: int|
            0 <= n < tasks.len() ==> (#[trigger] ordered[n]).uncompressed_digest@ == diff_ids[n]@,
{
    law_ordered_layers_are_the_handled_ones(tasks, known, answers, pulled, ordered);
    assert forall|n: int| 0 <= n < tasks.len() implies (
    #[trigger] ordered[n]).uncompressed_digest@ == diff_ids[n]@ by {
        assert(handled(tasks[n], known[n], answers[n]) == Ok::<LayerMeta, LayerError<E>>(
            ordered[n],
        ));
        if known[n].contains_key(tasks[n].layer.digest@) {
            law_known_layer_is_kept(tasks[n], known[n], answers[n]);
        } else {
            law_accepted_layer(tasks[n], known[n], answers[n]);
        }
    }
}

/// Two metadata of a layer say the same but for the store path.
pub open spec fn same_but_for_store_path(one: LayerMeta, two: LayerMeta) -> bool {
    &&& one.compressed_digest == two.compressed_digest
    &&& one.uncompressed_digest == two.uncompressed_digest
    &&& one.encrypted == two.encrypted
}

impl<E> LayerAnswers<E> {
    /// These answers are the other ones but for the store path.
    pub open spec fn differ_only_in_store_path(self, other: LayerAnswers<E>) -> bool {
        self == LayerAnswers { store_path: self.store_path, ..other }
    }
}

/// The store path decides nothing: with answers that differ in it alone, a
/// layer is accepted both times, with metadata that is the same but for the
/// store path, or ends both times with the same error. A layer that was pulled
/// before ends both times with the same metadata, store path included.
pub proof fn law_store_path_decides_nothing<E>(
    task: LayerTask,
    known: Map<Seq<char>, LayerMeta>,
    answers: LayerAnswers<E>,
    others: LayerAnswers<E>,
)
    requires
        answers.differ_only_in_store_path(others),
    ensures
        match (handled(task, known, answers), handled(task, known, others)) {
            (Ok(one), Ok(two)) => {
                &&& same_but_for_store_path(one, two)
                &&& known.contains_key(task.layer.digest@) ==> one == two
            },
            (Err(one), Err(two)) => one == two,
            _ => false,
        },
{
}

/// Two pulls agree: of the same layers, with the same layers pulled before and
/// with answers that differ in the store paths alone, in whatever order the
/// layers finish, they give as many layers, and each layer with metadata that
/// is the same but for the store path. A layer that was pulled before has the
/// same store path too. So the number of concurrent downloads, which decides
/// the finishing order, makes no other difference.
pub proof fn law_pulls_agree<E>(
    tasks: Seq<LayerTask>,
    known: Seq<Map<Seq<char>, LayerMeta>>,
    answers: Seq<LayerAnswers<E>>,
    others: Seq<LayerAnswers<E>>,
    pulled: Seq<(usize, LayerMeta)>,
    other_pulled: Seq<(usize, LayerMeta)>,
    ordered: Seq<LayerMeta>,
    other_ordered: Seq<LayerMeta>,
)
    requires
        tasks.len() <= usize::MAX,
        forall|n: int|
            0 <= n < tasks.len() ==> (#[trigger] answers[n]).differ_only_in_store_path(others[n]),
        all_handled(tasks, known, answers, pulled),
        all_handled(tasks, known, others, other_pulled),
        in_number_order(pulled, ordered),
        in_number_order(other_pulled, other_ordered),
    ensures
        ordered.len() == other_ordered.len(),
        forall|n: int|
            #![trigger ordered[n]]
            #![trigger other_ordered[n]]
            0 <= n < ordered.len() ==> {
                &&& same_but_for_store_path(ordered[n], other_ordered[n])
                &&& known[n].contains_key(tasks[n].layer.digest@) ==> ordered[n]
                    == other_ordered[n]
            },
{
    law_ordered_layers_are_the_handled_ones(tasks, known, answers, pulled, ordered);
    law_ordered_layers_are_the_handled_ones(tasks, known, others, other_pulled, other_ordered);
    assert forall|n: int|
        #![trigger ordered[n]]
        #![trigger other_ordered[n]]
        0 <= n < ordered.len() implies {
        &&& same_but_for_store_path(ordered[n], other_ordered[n])
        &&& known[n].contains_key(tasks[n].layer.digest@) ==> ordered[n] == other_ordered[n]
    } by {
        assert(answers[n].differ_only_in_store_path(others[n]));
        law_store_path_decides_nothing(tasks[n], known[n], answers[n], others[n]);
    }
}

/// What is known once each layer was filed under its digest, one after the
/// other.
pub open spec fn filed(
    known: Map<Seq<char>, LayerMeta>,
    tasks: Seq<LayerTask>,
    ordered: Seq<LayerMeta>,
) -> Map<Seq<char>, LayerMeta>
    decreases tasks.len(),
{
    if tasks.len() == 0 {
        known
    } else {
        filed(known, tasks.drop_last(), ordered).insert(
            tasks.last().layer.digest@,
            ordered[tasks.len() - 1],
        )
    }
}

/// No two layers have the same digest.
pub open spec fn distinct_digests(tasks: Seq<LayerTask>) -> bool {
    forall|i: int, j: int|
        0 <= i < j < tasks.len() ==> (#[trigger] tasks[i]).layer.digest@ != (
        #[trigger] tasks[j]).layer.digest@
}

/// A layer that was filed is found under its digest.
proof fn lemma_filed_is_found(
    known: Map<Seq<char>, LayerMeta>,
    tasks: Seq<LayerTask>,
    ordered: Seq<LayerMeta>,
    n: int,
)
    requires
        distinct_digests(tasks),
        0 <= n < tasks.len(),
    ensures
        filed(known, tasks, ordered).contains_key(tasks[n].layer.digest@),
        filed(known, tasks, ordered)[tasks[n].layer.digest@] == ordered[n],
    decreases tasks.len(),
{
    if n < tasks.len() - 1 {
        let rest = tasks.drop_last();
        assert forall|i: int, j: int| 0 <= i < j < rest.len() implies (
        #[trigger] rest[i]).layer.digest@ != (#[trigger] rest[j]).layer.digest@ by {
            assert(tasks[i].layer.digest@ != tasks[j].layer.digest@);
        }
        lemma_filed_is_found(known, rest, ordered, n);
        assert(tasks[n].layer.digest@ != tasks[tasks.len() - 1].layer.digest@);
    }
}

/// A second pull gives the first result back: once each layer of a pull was
/// filed under its digest, every layer starts as one that was pulled before,
/// so that it takes no new store path and nothing of it is unpacked, and its
/// handling succeeds whatever the answers would be. The second result is the
/// first one, store paths included, also where the second pull is given other
/// `diff_ids`. The layers have to have different digests.
pub proof fn law_second_pull_gives_the_first_back<E>(
    tasks: Seq<LayerTask>,
    known: Seq<Map<Seq<char>, LayerMeta>>,
    answers: Seq<LayerAnswers<E>>,
    pulled: Seq<(usize, LayerMeta)>,
    first: Seq<LayerMeta>,
    before: Map<Seq<char>, LayerMeta>,
    again: Seq<LayerTask>,
    answers_again: Seq<LayerAnswers<E>>,
    pulled_again: Seq<(usize, LayerMeta)>,
    second: Seq<LayerMeta>,
)
    requires
        tasks.len() <= usize::MAX,
        distinct_digests(tasks),
        all_handled(tasks, known, answers, pulled),
        in_number_order(pulled, first),
        again.len() == tasks.len(),
        forall|n: int| 0 <= n < tasks.len() ==> (#[trigger] again[n]).layer == tasks[n].layer,
        all_handled(
            again,
            Seq::new(again.len(), |n: int| filed(before, tasks, first)),
            answers_again,
            pulled_again,
        ),
        in_number_order(pulled_again, second),
    ensures
        second == first,
        forall|n: int|
            0 <= n < again.len() ==> (#[trigger] again[n]).started(filed(before, tasks, first))
                == LayerStart::Cached(first[n]),
        forall|n: int, any: LayerAnswers<E>|
            0 <= n < again.len() ==> #[trigger] handled(
                again[n],
                filed(before, tasks, first),
                any,
            ) == Ok::<LayerMeta, LayerError<E>>(first[n]),
{
    let now = filed(before, tasks, first);
    let store = Seq::new(again.len(), |n: int| now);
    law_ordered_layers_are_the_handled_ones(tasks, known, answers, pulled, first);
    law_ordered_layers_are_the_handled_ones(again, store, answers_again, pulled_again, second);
    assert forall|n: int| 0 <= n < again.len() implies (#[trigger] again[n]).started(now)
        == LayerStart::Cached(first[n]) by {
        lemma_filed_is_found(before, tasks, first, n);
    }
    assert forall|n: int, any: LayerAnswers<E>| 0 <= n < again.len() implies #[trigger] handled(
        again[n],
        now,
        any,
    ) == Ok::<LayerMeta, LayerError<E>>(first[n]) by {
        assert(again[n].started(now) == LayerStart::Cached(first[n]));
    }
    assert forall|n: int| 0 <= n < first.len() implies first[n] == second[n] by {
        assert(handled(again[n], store[n], answers_again[n]) == Ok::<LayerMeta, LayerError<E>>(
            second[n],
        ));
    }
    assert(second =~= first);
}

/// The pull of one layer alone gives that layer.
pub proof fn law_bootstrap_is_the_pulled_layer(
    layer_meta: LayerMeta,
    ordered: Seq<LayerMeta>,
)
    requires
        in_number_order(seq![(0usize, layer_meta)], ordered),
    ensures
        ordered == seq![layer_meta],
{
    let pulled = seq![(0usize, layer_meta)];
    assert(pulled[0].0 == 0);
    law_manifest_order(pulled, 1, ordered);
    assert(ordered[pulled[0].0 as int] == layer_meta);
}

} // verus!
