use vstd::prelude::*;

verus! {

/// The page that serves the GraphQL playground.
pub open spec fn playground_page() -> Seq<char> {
    "
    <!DOCTYPE html>
    <html>
    <head>
        <title>GraphQL Playground</title>
        <link href=\"https://cdn.jsdelivr.net/npm/graphql-playground-react@1.7.26/build/static/css/index.css\" rel=\"stylesheet\" />
    </head>
    <body>
        <div id=\"root\"></div>
        <script src=\"https://cdn.jsdelivr.net/npm/graphql-playground-react@1.7.26/build/static/js/middleware.js\"></script>
        <script>
            window.addEventListener('load', function (event) {
                GraphQLPlayground.init(document.getElementById('root'), {
                    endpoint: '/graphql',
                    subscriptionEndpoint: '/graphql/ws',
                    settings: {
                        'request.credentials': 'include',
                    }
                })
            })
        </script>
    </body>
    </html>
    "@
}

/// The page that serves the GraphQL playground: it talks to `/graphql`, and
/// to `/graphql/ws` for subscriptions.
pub fn graphql_playground() -> (page: &'static str)
    ensures
        page@ == playground_page(),
{
    "
    <!DOCTYPE html>
    <html>
    <head>
        <title>GraphQL Playground</title>
        <link href=\"https://cdn.jsdelivr.net/npm/graphql-playground-react@1.7.26/build/static/css/index.css\" rel=\"stylesheet\" />
    </head>
    <body>
        <div id=\"root\"></div>
        <script src=\"https://cdn.jsdelivr.net/npm/graphql-playground-react@1.7.26/build/static/js/middleware.js\"></script>
        <script>
            window.addEventListener('load', function (event) {
                GraphQLPlayground.init(document.getElementById('root'), {
                    endpoint: '/graphql',
                    subscriptionEndpoint: '/graphql/ws',
                    settings: {
                        'request.credentials': 'include',
                    }
                })
            })
        </script>
    </body>
    </html>
    "
}

} // verus!
