# inrush

A Kubernetes controller that runs an nginx gateway for the ingresses of a cluster.

`src/` holds the decisions, each with a contract that Verus proves:

- `crd`: what a gateway asks for.
- `ingress`, `routes`: which ingresses a gateway serves, and the locations and server names that
  its proxy is configured from.
- `objects`, `manifests`: the config map, deployment and services of a gateway.
- `reconcile`: which request is made next, and what a refusal leads to.
- `domain`: the service domain and the image that the environment gives.
- `error`: errors, and the report of a failure.
- `string_map`: labels, annotations, selectors and files.
- `routes_laws`, `reconcile_laws`: what holds of all of this together.

`app/` runs it: it watches the cluster, renders the proxy's configuration, and makes the requests.

The one thing that is taken on trust is the parser of `resolv.conf`, in `domain`.
