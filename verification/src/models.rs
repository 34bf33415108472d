//! Models that the catalog or an engine offers.

use vstd::prelude::*;

verus! {

/// One model of the catalog, or one that an engine reports.
#[derive(Debug)]
pub struct ModelInfo {
    pub id: String,
    pub name: String,
    pub engine: String,
    pub source: String,
    pub size: u64,
    pub created_at_millis: u64,
}

pub struct ModelInfoView {
    pub id: Seq<char>,
    pub name: Seq<char>,
    pub engine: Seq<char>,
    pub source: Seq<char>,
    pub size: u64,
    pub created_at_millis: u64,
}

impl View for ModelInfo {
    type V = ModelInfoView;

    open spec fn view(&self) -> ModelInfoView {
        ModelInfoView {
            id: self.id@,
            name: self.name@,
            engine: self.engine@,
            source: self.source@,
            size: self.size,
            created_at_millis: self.created_at_millis,
        }
    }
}

/// What a list of models says.
pub open spec fn infos(models: Seq<ModelInfo>) -> Seq<ModelInfoView> {
    models.map_values(|m: ModelInfo| m@)
}

} // verus!
