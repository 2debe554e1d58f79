use vstd::prelude::*;

verus! {

/// The intents that a generation request can carry. Each one holds the
/// instruction that tells the generator what to print.
#[derive(Debug, Clone, Copy, PartialEq, Eq, Structural)]
pub enum AiFunction {
    ConvertUserInputToGoal,
    PrintProjectScope,
    PrintSiteUrls,
    PrintBackendWebserverCode,
    PrintImprovedWebserverCode,
    PrintFixedCode,
    PrintRestApiEndpoints,
}

pub open spec fn instruction_of(f: AiFunction) -> Seq<char> {
    match f {
        AiFunction::ConvertUserInputToGoal => "convert_user_input_to_goal: takes a user request and prints a short, concise goal for the website to build"@,
        AiFunction::PrintProjectScope => "print_project_scope: takes a project description and prints a JSON object {\"is_crud_required\": bool, \"is_user_login_and_logout\": bool, \"is_external_urls_required\": bool}"@,
        AiFunction::PrintSiteUrls => "print_site_urls: takes a project description and prints a JSON list of public API endpoint URLs the website may use"@,
        AiFunction::PrintBackendWebserverCode => "print_backend_webserver_code: takes a code template and a project description and prints the complete backend webserver code"@,
        AiFunction::PrintImprovedWebserverCode => "print_improved_webserver_code: takes backend code and the project record and prints improved, complete backend webserver code"@,
        AiFunction::PrintFixedCode => "print_fixed_code: takes broken code and its error messages and prints the fixed code only"@,
        AiFunction::PrintRestApiEndpoints => "print_rest_api_endpoints: takes backend code and prints a JSON list of its REST routes, each with is_route_dynamic, method, request_body, response and route"@,
    }
}

pub open spec fn label_of(f: AiFunction) -> Seq<char> {
    match f {
        AiFunction::ConvertUserInputToGoal => "convert_user_input_to_goal"@,
        AiFunction::PrintProjectScope => "print_project_scope"@,
        AiFunction::PrintSiteUrls => "print_site_urls"@,
        AiFunction::PrintBackendWebserverCode => "print_backend_webserver_code"@,
        AiFunction::PrintImprovedWebserverCode => "print_improved_webserver_code"@,
        AiFunction::PrintFixedCode => "print_fixed_code"@,
        AiFunction::PrintRestApiEndpoints => "print_rest_api_endpoints"@,
    }
}

impl AiFunction {
    /// The instruction that the request embeds.
    pub fn instruction(&self) -> (r: &'static str)
        ensures
            r@ == instruction_of(*self),
    {
        match self {
            AiFunction::ConvertUserInputToGoal => "convert_user_input_to_goal: takes a user request and prints a short, concise goal for the website to build",
            AiFunction::PrintProjectScope => "print_project_scope: takes a project description and prints a JSON object {\"is_crud_required\": bool, \"is_user_login_and_logout\": bool, \"is_external_urls_required\": bool}",
            AiFunction::PrintSiteUrls => "print_site_urls: takes a project description and prints a JSON list of public API endpoint URLs the website may use",
            AiFunction::PrintBackendWebserverCode => "print_backend_webserver_code: takes a code template and a project description and prints the complete backend webserver code",
            AiFunction::PrintImprovedWebserverCode => "print_improved_webserver_code: takes backend code and the project record and prints improved, complete backend webserver code",
            AiFunction::PrintFixedCode => "print_fixed_code: takes broken code and its error messages and prints the fixed code only",
            AiFunction::PrintRestApiEndpoints => "print_rest_api_endpoints: takes backend code and prints a JSON list of its REST routes, each with is_route_dynamic, method, request_body, response and route",
        }
    }

    /// The short name of the intent, shown in progress messages.
    pub fn label(&self) -> (r: &'static str)
        ensures
            r@ == label_of(*self),
    {
        match self {
            AiFunction::ConvertUserInputToGoal => "convert_user_input_to_goal",
            AiFunction::PrintProjectScope => "print_project_scope",
            AiFunction::PrintSiteUrls => "print_site_urls",
            AiFunction::PrintBackendWebserverCode => "print_backend_webserver_code",
            AiFunction::PrintImprovedWebserverCode => "print_improved_webserver_code",
            AiFunction::PrintFixedCode => "print_fixed_code",
            AiFunction::PrintRestApiEndpoints => "print_rest_api_endpoints",
        }
    }
}

} // verus!
