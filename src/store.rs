//! The shared document state: the document currently loaded, if any, and
//! the operations of the editor on it. Every operation but loading fails
//! with `NoDocumentLoaded` while no document is there.

use vstd::prelude::*;
use crate::access::{
    AxisPtsData, CharacteristicData, MeasurementData, get_axis_pts_outcome,
    get_characteristic_outcome, get_measurement_outcome, update_axis_pts_outcome,
    update_characteristic_outcome, update_measurement_outcome,
};
use crate::directory::{
    A2lMetadata, CoreEntity, EntityUpdateResult, build_metadata, collect_core_entities,
    entities_of, entities_view, entity_renamed, metadata_of, module_described, project_updated,
};
use crate::error::EditorError;
use crate::import::{ElfSymbol, import_outcome};
use crate::model::Document;
use crate::tree::{A2lTree, build_tree, tree_view};

verus! {

/// Holder of the document currently loaded.
pub struct DocumentStore {
    pub document: Option<Document>,
}

/// The summary and entity list that an edit of `d` returns.
pub open spec fn update_result_of(d: Document, r: EntityUpdateResult) -> bool {
    &&& r.metadata@ == metadata_of(d, 0)
    &&& entities_view(r.entities@) == entities_of(d.modules@)
}

fn update_result(d: &Document) -> (r: EntityUpdateResult)
    ensures
        update_result_of(*d, r),
{
    EntityUpdateResult { metadata: build_metadata(d, 0), entities: collect_core_entities(d) }
}

impl DocumentStore {
    /// A store with no document.
    pub fn new() -> (r: DocumentStore)
        ensures
            r.document is None,
    {
        DocumentStore { document: None }
    }

    /// Replaces whatever was loaded by `document`, parsed with
    /// `warning_count` warnings, and returns its summary.
    pub fn load(&mut self, document: Document, warning_count: usize) -> (r: A2lMetadata)
        ensures
            final(self).document == Some(document),
            r@ == metadata_of(document, warning_count as nat),
    {
        let metadata = build_metadata(&document, warning_count);
        self.document = Some(document);
        metadata
    }

    /// The loaded document.
    pub fn current(&self) -> (r: Result<&Document, EditorError>)
        ensures
            match self.document {
                Some(d) => r matches Ok(x) && *x == d,
                None => r matches Err(EditorError::NoDocumentLoaded),
            },
    {
        match &self.document {
            Some(d) => Ok(d),
            None => Err(EditorError::NoDocumentLoaded),
        }
    }

    /// Sets the project's name, description and header comment.
    pub fn update_project_metadata(
        &mut self,
        name: String,
        long_identifier: String,
        header_comment: Option<String>,
    ) -> (r: Result<A2lMetadata, EditorError>)
        ensures
            match old(self).document {
                None => r matches Err(EditorError::NoDocumentLoaded) && *final(self) == *old(self),
                Some(d0) => final(self).document matches Some(d1) && project_updated(
                    d0,
                    d1,
                    name,
                    long_identifier,
                    header_comment,
                ) && (r matches Ok(m) && m@ == metadata_of(d1, 0)),
            },
    {
        match &mut self.document {
            Some(d) => {
                crate::directory::update_project_metadata(d, name, long_identifier, header_comment);
                Ok(build_metadata(d, 0))
            },
            None => Err(EditorError::NoDocumentLoaded),
        }
    }

    /// The flat list of promoted entities.
    pub fn list_core_entities(&self) -> (r: Result<Vec<CoreEntity>, EditorError>)
        ensures
            match self.document {
                None => r matches Err(EditorError::NoDocumentLoaded),
                Some(d) => r matches Ok(v) && entities_view(v@) == entities_of(d.modules@),
            },
    {
        match &self.document {
            Some(d) => Ok(collect_core_entities(d)),
            None => Err(EditorError::NoDocumentLoaded),
        }
    }

    /// The projected tree of the loaded document.
    pub fn list_a2l_tree(&self) -> (r: Result<A2lTree, EditorError>)
        ensures
            match self.document {
                None => r matches Err(EditorError::NoDocumentLoaded),
                Some(d) => r matches Ok(t) && t@ == tree_view(d),
            },
    {
        match &self.document {
            Some(d) => Ok(build_tree(d)),
            None => Err(EditorError::NoDocumentLoaded),
        }
    }

    /// Renames every entity of kind `kind` named `name`, in every module.
    pub fn update_entity_name(&mut self, kind: &str, name: &String, new_name: &String) -> (r: Result<
        EntityUpdateResult,
        EditorError,
    >)
        ensures
            match old(self).document {
                None => r matches Err(EditorError::NoDocumentLoaded) && *final(self) == *old(self),
                Some(d0) => final(self).document matches Some(d1) && entity_renamed(
                    d0,
                    d1,
                    kind@,
                    name@,
                    *new_name,
                ) && (r matches Ok(u) && update_result_of(d1, u)),
            },
    {
        match &mut self.document {
            Some(d) => {
                crate::directory::update_entity_name(d, kind, name, new_name);
                Ok(update_result(d))
            },
            None => Err(EditorError::NoDocumentLoaded),
        }
    }

    /// Sets the description of the module named `name`.
    pub fn update_module_long_identifier(&mut self, name: &String, long_identifier: &String) -> (r:
        Result<EntityUpdateResult, EditorError>)
        ensures
            match old(self).document {
                None => r matches Err(EditorError::NoDocumentLoaded) && *final(self) == *old(self),
                Some(d0) => final(self).document matches Some(d1) && module_described(
                    d0,
                    d1,
                    name@,
                    *long_identifier,
                ) && (r matches Ok(u) && update_result_of(d1, u)),
            },
    {
        match &mut self.document {
            Some(d) => {
                crate::directory::update_module_long_identifier(d, name, long_identifier);
                Ok(update_result(d))
            },
            None => Err(EditorError::NoDocumentLoaded),
        }
    }

    /// The editable fields of the first measurement named `name`.
    pub fn get_measurement(&self, name: &String) -> (r: Result<MeasurementData, EditorError>)
        ensures
            match self.document {
                None => r matches Err(EditorError::NoDocumentLoaded),
                Some(d) => get_measurement_outcome(d, *name, r),
            },
    {
        match &self.document {
            Some(d) => crate::access::get_measurement(d, name),
            None => Err(EditorError::NoDocumentLoaded),
        }
    }

    /// Replaces the editable fields of the first measurement named `name`.
    pub fn update_measurement(&mut self, name: &String, data: MeasurementData) -> (r: Result<(), EditorError>)
        ensures
            match old(self).document {
                None => r matches Err(EditorError::NoDocumentLoaded) && *final(self) == *old(self),
                Some(d0) => final(self).document matches Some(d1) && update_measurement_outcome(
                    d0,
                    d1,
                    *name,
                    data,
                    r,
                ),
            },
    {
        match &mut self.document {
            Some(d) => crate::access::update_measurement(d, name, data),
            None => Err(EditorError::NoDocumentLoaded),
        }
    }

    /// The editable fields of the first characteristic named `name`.
    pub fn get_characteristic(&self, name: &String) -> (r: Result<CharacteristicData, EditorError>)
        ensures
            match self.document {
                None => r matches Err(EditorError::NoDocumentLoaded),
                Some(d) => get_characteristic_outcome(d, *name, r),
            },
    {
        match &self.document {
            Some(d) => crate::access::get_characteristic(d, name),
            None => Err(EditorError::NoDocumentLoaded),
        }
    }

    /// Replaces the editable fields of the first characteristic named `name`.
    pub fn update_characteristic(&mut self, name: &String, data: CharacteristicData) -> (r: Result<
        (),
        EditorError,
    >)
        ensures
            match old(self).document {
                None => r matches Err(EditorError::NoDocumentLoaded) && *final(self) == *old(self),
                Some(d0) => final(self).document matches Some(d1) && update_characteristic_outcome(
                    d0,
                    d1,
                    *name,
                    data,
                    r,
                ),
            },
    {
        match &mut self.document {
            Some(d) => crate::access::update_characteristic(d, name, data),
            None => Err(EditorError::NoDocumentLoaded),
        }
    }

    /// The editable fields of the first axis points object named `name`.
    pub fn get_axis_pts(&self, name: &String) -> (r: Result<AxisPtsData, EditorError>)
        ensures
            match self.document {
                None => r matches Err(EditorError::NoDocumentLoaded),
                Some(d) => get_axis_pts_outcome(d, *name, r),
            },
    {
        match &self.document {
            Some(d) => crate::access::get_axis_pts(d, name),
            None => Err(EditorError::NoDocumentLoaded),
        }
    }

    /// Replaces the editable fields of the first axis points object named `name`.
    pub fn update_axis_pts(&mut self, name: &String, data: AxisPtsData) -> (r: Result<(), EditorError>)
        ensures
            match old(self).document {
                None => r matches Err(EditorError::NoDocumentLoaded) && *final(self) == *old(self),
                Some(d0) => final(self).document matches Some(d1) && update_axis_pts_outcome(
                    d0,
                    d1,
                    *name,
                    data,
                    r,
                ),
            },
    {
        match &mut self.document {
            Some(d) => crate::access::update_axis_pts(d, name, data),
            None => Err(EditorError::NoDocumentLoaded),
        }
    }

    /// Makes one measurement per symbol in the target module.
    pub fn create_measurements_from_elf(
        &mut self,
        module_name: Option<String>,
        symbols: &Vec<ElfSymbol>,
    ) -> (r: Result<EntityUpdateResult, EditorError>)
        ensures
            match old(self).document {
                None => r matches Err(EditorError::NoDocumentLoaded) && *final(self) == *old(self),
                Some(d0) => final(self).document matches Some(d1) && match r {
                    Ok(u) => import_outcome(d0, d1, module_name, symbols@, Ok(()))
                        && update_result_of(d1, u),
                    Err(e) => import_outcome(d0, d1, module_name, symbols@, Err(e)),
                },
            },
    {
        match &mut self.document {
            Some(d) => match crate::import::create_measurements_from_elf(d, module_name, symbols) {
                Ok(()) => Ok(update_result(d)),
                Err(e) => Err(e),
            },
            None => Err(EditorError::NoDocumentLoaded),
        }
    }
}

} // verus!
