use drift::mapping::mapper::{Mapper, MappingPipeline};

/// A linear rescaling from one range onto another, clamped to the target.
struct LinearMapper {
    name: String,
    in_min: f64,
    in_max: f64,
    out_min: f64,
    out_max: f64,
}

impl LinearMapper {
    fn new(name: &str, in_min: f64, in_max: f64, out_min: f64, out_max: f64) -> Self {
        LinearMapper { name: name.to_string(), in_min, in_max, out_min, out_max }
    }
}

impl Mapper for LinearMapper {
    type Value = f64;

    fn name(&self) -> &str {
        &self.name
    }

    fn map(&self, input: f64) -> f64 {
        let in_range = self.in_max - self.in_min;
        let normalized = if in_range.abs() < f64::EPSILON {
            0.5
        } else {
            (input - self.in_min) / in_range
        };
        let output = self.out_min + normalized * (self.out_max - self.out_min);
        output.clamp(self.out_min.min(self.out_max), self.out_min.max(self.out_max))
    }
}

/// Appends its tag to a trace, so that the order of application shows.
struct Tag(u8);

impl Mapper for Tag {
    type Value = Vec<u8>;

    fn name(&self) -> &str {
        "tag"
    }

    fn map(&self, input: Vec<u8>) -> Vec<u8> {
        let mut output = input;
        output.push(self.0);
        output
    }
}

#[test]
fn test_pipeline_single_mapper() {
    let pipeline = MappingPipeline::new().with(LinearMapper::new("test", 0.0, 100.0, 0.0, 1.0));

    assert!(!pipeline.is_empty());
    assert_eq!(pipeline.apply(0.0), 0.0);
    assert_eq!(pipeline.apply(50.0), 0.5);
    assert_eq!(pipeline.apply(100.0), 1.0);
}

#[test]
fn test_pipeline_chained_mappers() {
    let pipeline = MappingPipeline::new()
        .with(LinearMapper::new("first", 0.0, 100.0, 0.0, 10.0))
        .with(LinearMapper::new("second", 0.0, 10.0, 100.0, 200.0));

    // 50 -> 5.0 -> 150.0
    assert_eq!(pipeline.apply(50.0), 150.0);
}

#[test]
fn pipeline_empty_is_identity() {
    let pipeline: MappingPipeline<LinearMapper> = MappingPipeline::new();
    assert!(pipeline.is_empty());
    assert_eq!(pipeline.apply(42.5), 42.5);
    assert_eq!(pipeline.apply(-7.0), -7.0);
}

#[test]
fn pipeline_applies_left_to_right() {
    let pipeline = MappingPipeline::new().with(Tag(1)).with(Tag(2)).with(Tag(3));
    assert_eq!(pipeline.apply(vec![0]), vec![0, 1, 2, 3]);
    let head = MappingPipeline::new().with(Tag(1));
    let tail = MappingPipeline::new().with(Tag(2)).with(Tag(3));
    assert_eq!(tail.apply(head.apply(vec![0])), pipeline.apply(vec![0]));
}

#[test]
fn pipeline_linear_endpoints() {
    let pipeline = MappingPipeline::new().with(LinearMapper::new("pitch", -20.0, 40.0, 100.0, 400.0));
    assert_eq!(pipeline.apply(-20.0), 100.0);
    assert_eq!(pipeline.apply(10.0), 250.0);
    assert_eq!(pipeline.apply(40.0), 400.0);
}
