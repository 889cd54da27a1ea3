//! The lines of an exposition in the OpenMetrics text format, as far as the
//! library states what an exposition holds.

use vstd::prelude::*;
use crate::observability::buckets::{cumulative, observations};
use crate::observability::labels::LabelKey;
use crate::text::decimal;

verus! {

/// The line that ends every exposition.
pub open spec fn end_of_exposition() -> Seq<char> {
    "# EOF\n"@
}

/// Whether `text` ends with `tail`.
pub open spec fn ends_with(text: Seq<char>, tail: Seq<char>) -> bool {
    text.len() >= tail.len() && text.subrange(text.len() - tail.len(), text.len() as int) == tail
}

/// Whether `part` stands somewhere in `text`.
pub open spec fn contains(text: Seq<char>, part: Seq<char>) -> bool {
    exists|i: int|
        0 <= i && i + part.len() <= text.len() && #[trigger] text.subrange(i, i + part.len())
            == part
}

/// The name of a family as an exposition writes it: behind the prefix and an
/// underscore, where the registry has a prefix.
pub open spec fn exposed_name(prefix: Option<Seq<char>>, name: Seq<char>) -> Seq<char> {
    match prefix {
        Some(prefix) => prefix + "_"@ + name,
        None => name,
    }
}

/// The line that tells what a family is for.
pub open spec fn help_line(prefix: Option<Seq<char>>, family: (Seq<char>, Seq<char>)) -> Seq<char> {
    "# HELP "@ + exposed_name(prefix, family.0) + " "@ + family.1 + "\n"@
}

/// Whether `text` holds the help line of each of `families`.
pub open spec fn describes(
    text: Seq<char>,
    prefix: Option<Seq<char>>,
    families: Seq<(Seq<char>, Seq<char>)>,
) -> bool {
    forall|i: int|
        0 <= i < families.len() ==> contains(text, help_line(prefix, #[trigger] families[i]))
}

/// The line that tells of which kind a family is.
pub open spec fn type_line(prefix: Option<Seq<char>>, name: Seq<char>, kind: Seq<char>) -> Seq<
    char,
> {
    "# TYPE "@ + exposed_name(prefix, name) + " "@ + kind + "\n"@
}

/// One label as a sample line writes it: the key, then the value as it is
/// between quotation marks.
pub open spec fn label_text(label: (Seq<char>, Seq<char>)) -> Seq<char> {
    label.0 + "=\""@ + label.1 + "\""@
}

/// A label set as a sample line writes it: its labels in their order, with a
/// comma between two of them.
pub open spec fn labels_text(labels: LabelKey) -> Seq<char>
    decreases labels.len(),
{
    if labels.len() == 0 {
        Seq::empty()
    } else if labels.len() == 1 {
        label_text(labels[0])
    } else {
        labels_text(labels.drop_last()) + ","@ + label_text(labels.last())
    }
}

/// The sample line of a counter: the name with the suffix of a total, the
/// label set between braces, the value.
pub open spec fn counter_line(
    prefix: Option<Seq<char>>,
    name: Seq<char>,
    labels: LabelKey,
    value: u64,
) -> Seq<char> {
    exposed_name(prefix, name) + "_total{"@ + labels_text(labels) + "} "@ + decimal(value as nat)
        + "\n"@
}

/// The line that gives the number of observations of a histogram.
pub open spec fn count_line(
    prefix: Option<Seq<char>>,
    name: Seq<char>,
    labels: LabelKey,
    buckets: Seq<u64>,
) -> Seq<char> {
    exposed_name(prefix, name) + "_count{"@ + labels_text(labels) + "} "@ + decimal(
        observations(buckets),
    ) + "\n"@
}

/// The bounds of the latency buckets as an exposition writes them, in
/// seconds; the last stands for the bucket without a bound.
pub open spec fn bound_texts() -> Seq<Seq<char>> {
    seq![
        "0.005"@,
        "0.01"@,
        "0.025"@,
        "0.05"@,
        "0.1"@,
        "0.25"@,
        "0.5"@,
        "1.0"@,
        "2.5"@,
        "5.0"@,
        "10.0"@,
        "+Inf"@,
    ]
}

/// The line of bucket `i` of a latency histogram: the bound as a label before
/// the label set, then the observations counted up to that bound.
pub open spec fn bucket_line(
    prefix: Option<Seq<char>>,
    name: Seq<char>,
    labels: LabelKey,
    buckets: Seq<u64>,
    i: int,
) -> Seq<char> {
    exposed_name(prefix, name) + "_bucket{le=\""@ + bound_texts()[i] + "\","@ + labels_text(labels)
        + "} "@ + decimal(cumulative(buckets, i)) + "\n"@
}

/// Whether `text` shows a family of counters under `name`: its type line and
/// the sample line of every counter it holds.
pub open spec fn shows_counters(
    text: Seq<char>,
    prefix: Option<Seq<char>>,
    name: Seq<char>,
    samples: Map<LabelKey, u64>,
) -> bool {
    &&& contains(text, type_line(prefix, name, "counter"@))
    &&& forall|labels: LabelKey| #[trigger]
        samples.contains_key(labels) ==> contains(
            text,
            counter_line(prefix, name, labels, samples[labels]),
        )
}

/// Whether `text` shows a family of latency histograms under `name`: its
/// type line and, for every histogram it holds, the line of its count and
/// the line of each of its twelve buckets.
pub open spec fn shows_latencies(
    text: Seq<char>,
    prefix: Option<Seq<char>>,
    name: Seq<char>,
    samples: Map<LabelKey, Seq<u64>>,
) -> bool {
    &&& contains(text, type_line(prefix, name, "histogram"@))
    &&& forall|labels: LabelKey| #[trigger]
        samples.contains_key(labels) ==> contains(
            text,
            count_line(prefix, name, labels, samples[labels]),
        )
    &&& forall|labels: LabelKey, i: int|
        samples.contains_key(labels) && 0 <= i < 12 ==> contains(
            text,
            #[trigger] bucket_line(prefix, name, labels, samples[labels], i),
        )
}

} // verus!
