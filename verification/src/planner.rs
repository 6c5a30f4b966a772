//! The plan that the coordinator returns: an objective and its steps.
use vstd::prelude::*;

verus! {

/// Bit pattern of the `f32` value 0.91, the confidence of the loader plan.
pub const LOADER_PLAN_CONFIDENCE_BITS: u32 = 0x3f68f5c3;

/// An objective, the steps towards it and how sure the planner is of them.
/// The confidence is carried as the bit pattern of an `f32`.
#[derive(Debug, Clone)]
pub struct TeleportPlan {
    pub objective: String,
    pub steps: Vec<String>,
    pub confidence_bits: u32,
    pub model_used: String,
    pub tokens_generated: u32,
}

/// The texts of a list of steps.
pub open spec fn step_texts(steps: Seq<String>) -> Seq<Seq<char>> {
    steps.map_values(|s: String| s@)
}

impl TeleportPlan {
    /// A plan for `objective` with no steps, zero confidence and no model.
    pub fn new(objective: &str) -> (r: Self)
        ensures
            r.objective@ == objective@,
            r.steps@.len() == 0,
            r.confidence_bits == 0,
            r.model_used@ == Seq::<char>::empty(),
            r.tokens_generated == 0,
    {
        TeleportPlan {
            objective: String::from_str(objective),
            steps: Vec::new(),
            confidence_bits: 0,
            model_used: String::new(),
            tokens_generated: 0,
        }
    }

    /// The same plan with its steps replaced by `steps`, in order.
    pub fn with_steps(self, steps: Vec<&str>) -> (r: Self)
        ensures
            r.objective == self.objective,
            step_texts(r.steps@) == steps@.map_values(|s: &str| s@),
            r.confidence_bits == self.confidence_bits,
            r.model_used == self.model_used,
            r.tokens_generated == self.tokens_generated,
    {
        let mut owned: Vec<String> = Vec::new();
        let mut i: usize = 0;
        while i < steps.len()
            invariant
                i <= steps@.len(),
                owned@.len() == i,
                forall|j: int| 0 <= j < i ==> #[trigger] owned@[j]@ == steps@[j]@,
            decreases steps@.len() - i,
        {
            let step = String::from_str(steps[i]);
            owned.push(step);
            i = i + 1;
        }
        assert(step_texts(owned@) =~= steps@.map_values(|s: &str| s@));
        let mut plan = self;
        plan.steps = owned;
        plan
    }

    /// The same plan with confidence `conf_bits` (an `f32` bit pattern).
    pub fn with_confidence(self, conf_bits: u32) -> (r: Self)
        ensures
            r.objective == self.objective,
            r.steps == self.steps,
            r.confidence_bits == conf_bits,
            r.model_used == self.model_used,
            r.tokens_generated == self.tokens_generated,
    {
        let mut plan = self;
        plan.confidence_bits = conf_bits;
        plan
    }

    /// The plan for building the model loader.
    pub fn build_loader_plan() -> (r: Self)
        ensures
            r.objective@ == "build_loader"@,
            step_texts(r.steps@) == seq![
                "parse_gguf_header"@,
                "parse_tensor_index"@,
                "mmap_tensor_data"@,
                "verify_offsets"@,
            ],
            r.confidence_bits == LOADER_PLAN_CONFIDENCE_BITS,
            r.model_used@ == Seq::<char>::empty(),
            r.tokens_generated == 0,
    {
        let steps: Vec<&str> = vec![
            "parse_gguf_header",
            "parse_tensor_index",
            "mmap_tensor_data",
            "verify_offsets",
        ];
        let r = Self::new("build_loader").with_steps(steps).with_confidence(
            LOADER_PLAN_CONFIDENCE_BITS,
        );
        assert(step_texts(r.steps@) =~= seq![
            "parse_gguf_header"@,
            "parse_tensor_index"@,
            "mmap_tensor_data"@,
            "verify_offsets"@,
        ]);
        r
    }
}

impl Default for TeleportPlan {
    fn default() -> (r: Self)
        ensures
            r.objective@ == "default"@,
            r.steps@.len() == 0,
            r.confidence_bits == 0,
            r.model_used@ == Seq::<char>::empty(),
            r.tokens_generated == 0,
    {
        Self::new("default")
    }
}

} // verus!
