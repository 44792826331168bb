use vstd::prelude::*;

verus! {

/// Whether two strings hold the same characters.
pub fn same_text(a: &str, b: &str) -> (r: bool)
    ensures
        r == (a@ == b@),
{
    a.to_owned() == b.to_owned()
}

/// Class index of an Iris species name.
pub open spec fn iris_label_of(class: Seq<char>) -> Option<i8> {
    if class == "Iris-setosa"@ {
        Some(0)
    } else if class == "Iris-versicolor"@ {
        Some(1)
    } else if class == "Iris-virginica"@ {
        Some(2)
    } else {
        None
    }
}

/// Species name of an Iris class index.
pub open spec fn iris_class_of(label: int) -> Seq<char> {
    if label == 0 {
        "Iris-setosa"@
    } else if label == 1 {
        "Iris-versicolor"@
    } else {
        "Iris-virginica"@
    }
}

/// Label of an IMDB review sentiment.
pub open spec fn sentiment_label_of(sentiment: Seq<char>) -> Option<u8> {
    if sentiment == "negative"@ {
        Some(0)
    } else if sentiment == "positive"@ {
        Some(1)
    } else {
        None
    }
}

/// Name of an AG News class index.
pub open spec fn agnews_class_of(label: int) -> Seq<char> {
    if label == 0 {
        "World"@
    } else if label == 1 {
        "Sports"@
    } else if label == 2 {
        "Business"@
    } else {
        "Technology"@
    }
}

/// Maps an Iris species name to its class index; `None` for any other name.
pub fn class_label(class: &str) -> (r: Option<i8>)
    ensures
        r == iris_label_of(class@),
{
    if same_text(class, "Iris-setosa") {
        Some(0)
    } else if same_text(class, "Iris-versicolor") {
        Some(1)
    } else if same_text(class, "Iris-virginica") {
        Some(2)
    } else {
        None
    }
}

/// Maps a predicted Iris class index back to its species name; `None` for
/// an index that is no class.
pub fn label_to_class(label: i64) -> (r: Option<&'static str>)
    ensures
        (0 <= label < 3) == r is Some,
        r matches Some(name) ==> name@ == iris_class_of(label as int),
{
    if label == 0 {
        Some("Iris-setosa")
    } else if label == 1 {
        Some("Iris-versicolor")
    } else if label == 2 {
        Some("Iris-virginica")
    } else {
        None
    }
}

/// Maps an IMDB sentiment to its label: "negative" is 0, "positive" is 1,
/// anything else `None`.
pub fn sentiment_to_label(sentiment: &str) -> (r: Option<u8>)
    ensures
        r == sentiment_label_of(sentiment@),
{
    if same_text(sentiment, "negative") {
        Some(0)
    } else if same_text(sentiment, "positive") {
        Some(1)
    } else {
        None
    }
}

/// Each Iris class index names a species that maps back to that index.
pub proof fn lemma_iris_round_trip(label: int)
    requires
        0 <= label < 3,
    ensures
        iris_label_of(iris_class_of(label)) == Some(label as i8),
{
    reveal_strlit("Iris-setosa");
    reveal_strlit("Iris-versicolor");
    reveal_strlit("Iris-virginica");
    assert("Iris-setosa"@.len() == 11);
    assert("Iris-versicolor"@.len() == 15);
    assert("Iris-virginica"@.len() == 14);
}

} // verus!
