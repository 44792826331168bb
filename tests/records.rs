use batching::dataset::{
    select_split, AgNewsDataset, AgNewsItem, ClassificationDataset, IMDBDataset, IMDBItem,
    IrisDataset, WineQualityDataset,
};
use batching::error::BatchError;
use batching::iris::{IrisBatcher, IrisItem};
use batching::labels::{class_label, label_to_class, sentiment_to_label};
use batching::normalize::{FixedRange, Normalization, Ratio};
use batching::tabular::{TabularBatcher, TabularRecord};
use batching::wine::{WineQualityBatcher, WineQualityItem};

fn iris(species: &str, base: i64) -> IrisItem {
    IrisItem {
        sepal_length: base,
        sepal_width: base + 1,
        petal_length: base + 2,
        petal_width: base + 3,
        species: species.to_string(),
    }
}

fn wine(fixed_acidity: i64, quality: i64) -> WineQualityItem {
    WineQualityItem {
        fixed_acidity,
        volatile_acidity: 8000,
        citric_acid: 166000,
        residual_sugar: 60000,
        chlorides: 900,
        free_sulfur_dioxide: 200000,
        total_sulfur_dioxide: 900000,
        density: 98711,
        ph: 272000,
        sulphates: 22000,
        alcohol: 1420000,
        quality,
    }
}

#[test]
fn iris_labels_round_trip() {
    assert_eq!(class_label("Iris-setosa"), Some(0));
    assert_eq!(class_label("Iris-versicolor"), Some(1));
    assert_eq!(class_label("Iris-virginica"), Some(2));
    assert_eq!(class_label("iris-setosa"), None);
    for label in 0..3 {
        assert_eq!(class_label(label_to_class(label).unwrap()), Some(label as i8));
    }
    assert_eq!(label_to_class(1), Some("Iris-versicolor"));
    assert_eq!(label_to_class(3), None);
    assert_eq!(label_to_class(-1), None);
}

#[test]
fn sentiments_map_to_labels() {
    assert_eq!(sentiment_to_label("negative"), Some(0));
    assert_eq!(sentiment_to_label("positive"), Some(1));
    assert_eq!(sentiment_to_label("neutral"), None);
}

#[test]
fn agnews_classes() {
    assert_eq!(AgNewsDataset::num_classes(), 4);
    assert_eq!(AgNewsDataset::class_name(0), Some("World".to_string()));
    assert_eq!(AgNewsDataset::class_name(3), Some("Technology".to_string()));
    assert_eq!(AgNewsDataset::class_name(4), None);
    let d = AgNewsDataset::new(vec![AgNewsItem {
        title: "Markets".to_string(),
        description: "rise again".to_string(),
        label: 2,
    }]);
    assert_eq!(d.len(), 1);
    let item = d.get(0).unwrap();
    assert_eq!(item.text, "Markets rise again");
    assert_eq!(item.label, 2);
    assert!(d.get(1).is_none());
}

#[test]
fn splits_cut_at_eight_tenths() {
    let items: Vec<u32> = (0..10).collect();
    assert_eq!(select_split(items.clone(), "train"), Ok((0..8).collect::<Vec<u32>>()));
    assert_eq!(select_split(items.clone(), "test"), Ok(vec![8, 9]));
    assert_eq!(select_split(items, "valid"), Err(BatchError::ConfigurationError));
    let odd: Vec<u32> = (0..7).collect();
    assert_eq!(select_split(odd.clone(), "train").unwrap().len(), 5);
    assert_eq!(select_split(odd, "test").unwrap(), vec![5, 6]);
}

#[test]
fn imdb_decodes_sentiments() {
    let review = |text: &str, sentiment: &str| IMDBItem {
        review: text.to_string(),
        sentiment: sentiment.to_string(),
    };
    let items = vec![
        review("fine", "positive"),
        review("dull", "negative"),
        review("odd", "negative"),
        review("last", "positive"),
        review("meh", "mixed"),
    ];
    let d = IMDBDataset::new("train", items).ok().unwrap();
    assert_eq!(d.len(), 4);
    assert_eq!(d.get(3).unwrap().text, "last");
    assert_eq!(d.get(3).unwrap().label, 1);
    let bad = vec![review("fine", "positive"), review("meh", "mixed")];
    assert_eq!(IMDBDataset::new("train", bad).err(), None);
    let bad = vec![
        review("a", "positive"),
        review("b", "negative"),
        review("c", "positive"),
        review("d", "unsure"),
        review("e", "positive"),
    ];
    assert_eq!(
        IMDBDataset::new("train", bad).err(),
        Some(BatchError::DataError { index: 3 })
    );
    let good = vec![review("x", "positive"), review("y", "negative")];
    let d = IMDBDataset::new("test", good).ok().unwrap();
    let item = d.get(0).unwrap();
    assert_eq!(item.text, "y");
    assert_eq!(item.label, 0);
    assert!(IMDBDataset::new("dev", Vec::new()).is_err());
}

#[test]
fn iris_and_wine_splits() {
    let items: Vec<IrisItem> = (0..5).map(|i| iris("Iris-setosa", i)).collect();
    let train = IrisDataset::train(items);
    assert_eq!(train.len(), 4);
    assert_eq!(train.get(3).unwrap().sepal_length, 3);
    assert!(train.get(4).is_none());
    let items: Vec<IrisItem> = (0..5).map(|i| iris("Iris-setosa", i)).collect();
    let test = IrisDataset::test(items);
    assert_eq!(test.len(), 1);
    assert_eq!(test.get(0).unwrap().sepal_length, 4);
    let wines: Vec<WineQualityItem> = (0..10).map(|i| wine(i, 5)).collect();
    assert_eq!(WineQualityDataset::train(wines.clone()).len(), 8);
    let test = WineQualityDataset::test(wines.clone());
    assert_eq!(test.get(1).unwrap().fixed_acidity, 9);
    assert!(WineQualityDataset::new("all", wines).is_err());
}

#[test]
fn iris_batch_keeps_order() {
    let items = vec![iris("Iris-virginica", 10), iris("Iris-setosa", 20)];
    let b = IrisBatcher::new().batch(&items).ok().unwrap();
    assert_eq!(b.inputs, vec![vec![10, 11, 12, 13], vec![20, 21, 22, 23]]);
    assert_eq!(b.targets, vec![2, 0]);
    let items = vec![iris("Iris-setosa", 1), iris("Rose", 2), iris("Tulip", 3)];
    assert_eq!(
        IrisBatcher::new().batch(&items).err(),
        Some(BatchError::DataError { index: 1 })
    );
}

#[test]
fn wine_batch_uses_historical_ranges() {
    let items = vec![wine(800000, 6), wine(380000, 3), wine(1420000, 9)];
    let b = WineQualityBatcher::new().batch(&items).ok().unwrap();
    assert_eq!(b.inputs.len(), 3);
    assert_eq!(b.inputs[0][0], Ratio { num: 420000, den: 1040000 });
    let first = b.inputs[0][0].num as f64 / b.inputs[0][0].den as f64;
    assert!((first - 0.4038).abs() < 1e-4);
    assert_eq!(b.inputs[1][0].num, 0);
    assert_eq!(b.inputs[2][0].num, b.inputs[2][0].den);
    for row in &b.inputs {
        assert_eq!(row.len(), 11);
        assert_eq!(row[1].num, 0);
        assert_eq!(row[2].num, row[2].den);
    }
    assert_eq!(
        b.targets,
        vec![Ratio { num: 3, den: 6 }, Ratio { num: 0, den: 6 }, Ratio { num: 6, den: 6 }]
    );
}

#[test]
fn wine_batch_with_batch_bounds() {
    let items = vec![wine(100, 4), wine(300, 5)];
    let batcher = WineQualityBatcher::with_normalization(Normalization::BatchMinMax);
    let b = batcher.batch(&items).ok().unwrap();
    assert_eq!(b.inputs[0][0], Ratio { num: 0, den: 200 });
    assert_eq!(b.inputs[1][0], Ratio { num: 200, den: 200 });
    assert_eq!(b.inputs[0][1], Ratio { num: 0, den: 1 });
    let bad = WineQualityBatcher::with_normalization(Normalization::Fixed(vec![FixedRange {
        min: 0,
        max: 1,
    }]));
    assert_eq!(bad.batch(&items).err(), Some(BatchError::ConfigurationError));
}

#[test]
fn tabular_batches() {
    let batcher = TabularBatcher::new(2, Normalization::BatchMinMax);
    let rows = vec![
        TabularRecord { features: vec![0, 5], target: Some(1) },
        TabularRecord { features: vec![10, 5], target: Some(2) },
    ];
    let b = batcher.batch(&rows).ok().unwrap();
    assert_eq!(b.targets, Some(vec![1, 2]));
    assert_eq!(b.inputs[1][0], Ratio { num: 10, den: 10 });
    assert_eq!(b.inputs[1][1], Ratio { num: 0, den: 1 });

    let unlabelled = vec![TabularRecord { features: vec![3, 4], target: None }];
    assert_eq!(batcher.batch(&unlabelled).ok().unwrap().targets, None);

    let mixed = vec![
        TabularRecord { features: vec![0, 5], target: Some(1) },
        TabularRecord { features: vec![1, 5], target: None },
    ];
    assert_eq!(batcher.batch(&mixed).err(), Some(BatchError::ShapeError));

    let short = vec![TabularRecord { features: vec![0], target: None }];
    assert_eq!(batcher.batch(&short).err(), Some(BatchError::ShapeError));

    let degenerate = TabularBatcher::new(1, Normalization::Fixed(vec![FixedRange { min: 2, max: 2 }]));
    assert_eq!(degenerate.batch(&short).err(), Some(BatchError::ConfigurationError));
}

#[test]
fn imdb_train_and_test_constructors() {
    let items: Vec<IMDBItem> = (0..10)
        .map(|i| IMDBItem {
            review: format!("r{}", i),
            sentiment: if i % 2 == 0 { "positive" } else { "negative" }.to_string(),
        })
        .collect();
    let train = IMDBDataset::train(items.iter().map(|i| IMDBItem {
        review: i.review.clone(),
        sentiment: i.sentiment.clone(),
    }).collect()).ok().unwrap();
    assert_eq!(train.len(), 8);
    let test = IMDBDataset::test(items).ok().unwrap();
    assert_eq!(test.len(), 2);
    let first = test.get(0).unwrap();
    assert_eq!(first.text, "r8");
    assert_eq!(first.label, 1);
    assert!(test.get(2).is_none());
}
