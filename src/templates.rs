use crate::errors::{blank, ValidationError};
use vstd::prelude::*;

verus! {

/// A template as shown to its company.
pub struct TemplateResponse {
    pub id: i64,
    pub name: String,
    pub subject: String,
    pub template_type: String,
    pub content: String,
    pub date_created: String,
    pub date_updated: String,
}

/// Template figures for the dashboard.
pub struct TemplateStats {
    pub total_templates: i32,
    pub active_templates: i32,
    pub total_usage: i64,
    pub this_month: i64,
}

/// Body of a request for a new template.
pub struct CreateTemplateRequest {
    pub name: String,
    pub subject: String,
    pub template_type: String,
    pub content: String,
}

/// Body of a template update; absent fields stay as they are.
pub struct UpdateTemplateRequest {
    pub name: Option<String>,
    pub subject: Option<String>,
    pub content: Option<String>,
    pub status: Option<String>,
}

/// Template storage per company.
pub struct TemplatesController;

impl CreateTemplateRequest {
    /// Name and subject must be given.
    pub fn validate(&self) -> (r: Result<(), ValidationError>)
        ensures
            r is Ok <==> (self.name@.len() > 0 && self.subject@.len() > 0),
            r matches Err(e) ==> e.message@ == "Template name and subject are required"@,
    {
        if blank(&self.name) || blank(&self.subject) {
            return Err(ValidationError::new("Template name and subject are required"));
        }
        Ok(())
    }
}

impl TemplatesController {
    /// The figures the dashboard shows until template usage is tracked.
    pub fn get_template_stats() -> (r: TemplateStats)
        ensures
            r.total_templates == 12 && r.active_templates == 9,
            r.total_usage == 3948 && r.this_month == 1247,
    {
        TemplateStats { total_templates: 12, active_templates: 9, total_usage: 3948, this_month: 1247 }
    }
}

} // verus!
